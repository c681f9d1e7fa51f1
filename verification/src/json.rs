//! JSON documents as plain values: what the API replies hold and what the
//! Xray configuration is made of.
use vstd::prelude::*;


verus! {

/// A JSON number as `serde_json` keeps it: a non-negative integer, a negative
/// integer, or a floating-point number, held here by its shortest decimal text.
#[derive(Debug, Clone, PartialEq)]
pub enum JsonNumber {
    PosInt(u64),
    NegInt(i64),
    Float(String),
}

/// A JSON value. Object members keep their order; member names are looked
/// up from the front.
#[derive(Debug, PartialEq)]
pub enum Json {
    Null,
    Bool(bool),
    Number(JsonNumber),
    Str(String),
    Array(Vec<Json>),
    Object(Vec<(String, Json)>),
}

/// The mathematical model of a JSON value.
pub ghost enum JsonV {
    Null,
    Bool(bool),
    Int(int),
    Float(Seq<char>),
    Str(Seq<char>),
    Array(Seq<JsonV>),
    Object(Seq<(Seq<char>, JsonV)>),
}

pub open spec fn number_view(n: JsonNumber) -> JsonV {
    match n {
        JsonNumber::PosInt(u) => JsonV::Int(u as int),
        JsonNumber::NegInt(i) => JsonV::Int(i as int),
        JsonNumber::Float(t) => JsonV::Float(t@),
    }
}

pub open spec fn json_view(j: Json) -> JsonV
    decreases j,
{
    match j {
        Json::Null => JsonV::Null,
        Json::Bool(b) => JsonV::Bool(b),
        Json::Number(n) => number_view(n),
        Json::Str(s) => JsonV::Str(s@),
        Json::Array(a) => JsonV::Array(
            Seq::new(
                a@.len(),
                |i: int|
                    if 0 <= i < a@.len() {
                        json_view(a@[i])
                    } else {
                        JsonV::Null
                    },
            ),
        ),
        Json::Object(fs) => JsonV::Object(
            Seq::new(
                fs@.len(),
                |i: int|
                    if 0 <= i < fs@.len() {
                        (fs@[i].0@, json_view(fs@[i].1))
                    } else {
                        (Seq::empty(), JsonV::Null)
                    },
            ),
        ),
    }
}

impl View for Json {
    type V = JsonV;

    open spec fn view(&self) -> JsonV {
        json_view(*self)
    }
}


/// Position of the first member named `k` at or after `i`, or -1.
pub open spec fn field_pos(fs: Seq<(Seq<char>, JsonV)>, k: Seq<char>, i: int) -> int
    decreases fs.len() - i,
{
    if i < 0 || i >= fs.len() {
        -1
    } else if fs[i].0 == k {
        i
    } else {
        field_pos(fs, k, i + 1)
    }
}

/// The value of the first member named `k`.
pub open spec fn obj_lookup(fs: Seq<(Seq<char>, JsonV)>, k: Seq<char>) -> Option<JsonV> {
    let p = field_pos(fs, k, 0);
    if p >= 0 {
        Some(fs[p].1)
    } else {
        None
    }
}

/// The members with `k` set to `v`: the first member named `k` is replaced in
/// place, or a new member is added at the end.
pub open spec fn obj_put(fs: Seq<(Seq<char>, JsonV)>, k: Seq<char>, v: JsonV) -> Seq<
    (Seq<char>, JsonV),
> {
    let p = field_pos(fs, k, 0);
    if p >= 0 {
        fs.update(p, (k, v))
    } else {
        fs.push((k, v))
    }
}

/// `value.get(k)` of `serde_json`: the member `k` of an object, nothing for
/// any other kind of value.
pub open spec fn json_get(v: JsonV, k: Seq<char>) -> Option<JsonV> {
    match v {
        JsonV::Object(fs) => obj_lookup(fs, k),
        _ => None,
    }
}

/// `value[k] = x` of `serde_json` on an object or on null (which becomes an
/// object); any other value is left as it is.
pub open spec fn json_put(v: JsonV, k: Seq<char>, x: JsonV) -> JsonV {
    match v {
        JsonV::Object(fs) => JsonV::Object(obj_put(fs, k, x)),
        JsonV::Null => JsonV::Object(seq![(k, x)]),
        _ => v,
    }
}

/// `value[k]` of `serde_json` when reading: the member, or null.
pub open spec fn json_index(v: JsonV, k: Seq<char>) -> JsonV {
    match json_get(v, k) {
        Some(x) => x,
        None => JsonV::Null,
    }
}

pub open spec fn json_as_str(v: JsonV) -> Option<Seq<char>> {
    match v {
        JsonV::Str(s) => Some(s),
        _ => None,
    }
}

pub open spec fn json_as_u64(v: JsonV) -> Option<nat> {
    match v {
        JsonV::Int(n) => if 0 <= n <= u64::MAX {
            Some(n as nat)
        } else {
            None
        },
        _ => None,
    }
}

pub open spec fn json_as_i64(v: JsonV) -> Option<int> {
    match v {
        JsonV::Int(n) => if i64::MIN <= n <= i64::MAX {
            Some(n)
        } else {
            None
        },
        _ => None,
    }
}

pub proof fn lemma_field_pos(fs: Seq<(Seq<char>, JsonV)>, k: Seq<char>, i: int)
    requires
        0 <= i,
    ensures
        field_pos(fs, k, i) == -1 || (i <= field_pos(fs, k, i) < fs.len() && fs[field_pos(
            fs,
            k,
            i,
        )].0 == k),
        field_pos(fs, k, i) == -1 ==> forall|m: int| i <= m < fs.len() ==> fs[m].0 != k,
        field_pos(fs, k, i) != -1 ==> forall|m: int| i <= m < field_pos(fs, k, i) ==> fs[m].0 != k,
    decreases fs.len() - i,
{
    if i < fs.len() && fs[i].0 != k {
        lemma_field_pos(fs, k, i + 1);
    }
}

/// After `value[k] = x`, reading `k` from an object gives `x` back.
pub proof fn law_json_put_get(v: JsonV, k: Seq<char>, x: JsonV)
    requires
        v is Object || v is Null,
    ensures
        json_get(json_put(v, k, x), k) == Some(x),
{
    match v {
        JsonV::Object(fs) => {
            lemma_field_pos(fs, k, 0);
            let fs2 = obj_put(fs, k, x);
            lemma_field_pos(fs2, k, 0);
            if field_pos(fs, k, 0) >= 0 {
                let p = field_pos(fs, k, 0);
                assert(fs2[p].0 == k);
                assert(forall|m: int| 0 <= m < p ==> fs2[m].0 == fs[m].0);
                assert(field_pos(fs2, k, 0) == field_pos(fs, k, 0));
            } else {
                assert(fs2[fs.len() as int].0 == k);
                assert(field_pos(fs2, k, 0) == fs.len());
            }
        },
        _ => {
            assert(field_pos(seq![(k, x)], k, 0) == 0);
        },
    }
}

/// `value[k] = x` leaves every other member as it was.
pub proof fn law_json_put_other(v: JsonV, k: Seq<char>, x: JsonV, other: Seq<char>)
    requires
        v is Object,
        other != k,
    ensures
        json_get(json_put(v, k, x), other) == json_get(v, other),
{
    let fs = v->Object_0;
    let fs2 = obj_put(fs, k, x);
    lemma_field_pos(fs, k, 0);
    lemma_field_pos(fs, other, 0);
    lemma_field_pos(fs2, other, 0);
    assert(forall|m: int| 0 <= m < fs.len() ==> fs2[m].0 == fs[m].0);
    if field_pos(fs, other, 0) >= 0 {
        assert(field_pos(fs2, other, 0) == field_pos(fs, other, 0));
    } else {
        assert(field_pos(fs2, other, 0) == -1);
    }
}

impl JsonNumber {
    /// A copy of the value.
    pub fn copy(&self) -> (r: JsonNumber)
        ensures
            number_view(r) == number_view(*self),
    {
        match self {
            JsonNumber::PosInt(u) => JsonNumber::PosInt(*u),
            JsonNumber::NegInt(i) => JsonNumber::NegInt(*i),
            JsonNumber::Float(t) => JsonNumber::Float(t.clone()),
        }
    }
}

impl Json {
    /// A copy with the same value.
    #[verifier::loop_isolation(false)]
    pub fn copy(&self) -> (r: Json)
        ensures
            r@ == self@,
        decreases self,
    {
        match self {
            Json::Null => Json::Null,
            Json::Bool(b) => Json::Bool(*b),
            Json::Number(n) => Json::Number(n.copy()),
            Json::Str(s) => Json::Str(s.clone()),
            Json::Array(a) => {
                let mut out: Vec<Json> = Vec::new();
                let n = a.len();
                for i in 0..n
                    invariant
                        n == a@.len(),
                        out@.len() == i,
                        forall|m: int| 0 <= m < i ==> json_view(#[trigger] out@[m]) == json_view(a@[m]),
                {
                    proof {
                        assert(decreases_to!(*self => *a));
                        assert(decreases_to!(*a => a@));
                        assert(decreases_to!(a@ => a@[i as int]));
                        assert(decreases_to!(*self => a@[i as int]));
                    }
                    let c = a[i].copy();
                    out.push(c);
                }
                proof {
                    let r = Json::Array(out);
                    assert(json_view(r)->Array_0 =~= json_view(*self)->Array_0);
                }
                Json::Array(out)
            },
            Json::Object(fs) => {
                let mut out: Vec<(String, Json)> = Vec::new();
                let n = fs.len();
                for i in 0..n
                    invariant
                        n == fs@.len(),
                        out@.len() == i,
                        forall|m: int|
                            0 <= m < i ==> (#[trigger] out@[m]).0@ == fs@[m].0@ && json_view(out@[m].1)
                                == json_view(fs@[m].1),
                {
                    let k = fs[i].0.clone();
                    proof {
                        assert(decreases_to!(*self => *fs));
                        assert(decreases_to!(*fs => fs@));
                        assert(decreases_to!(fs@ => fs@[i as int]));
                        assert(decreases_to!(fs@[i as int] => fs@[i as int].1));
                        assert(decreases_to!(*self => fs@[i as int].1));
                    }
                    let c = fs[i].1.copy();
                    out.push((k, c));
                }
                proof {
                    let r = Json::Object(out);
                    assert(json_view(r)->Object_0 =~= json_view(*self)->Object_0);
                }
                Json::Object(out)
            },
        }
    }

    /// `value.get(key)`.
    #[verifier::loop_isolation(false)]
    pub fn get(&self, key: &str) -> (r: Option<&Json>)
        ensures
            match r {
                Some(x) => json_get(self@, key@) == Some(x@),
                None => json_get(self@, key@) is None,
            },
    {
        match self {
            Json::Object(fs) => {
                let k = String::from_str(key);
                let ghost vfs = match self@ {
                    JsonV::Object(v) => v,
                    _ => Seq::empty(),
                };
                assert(vfs.len() == fs@.len());
                let n = fs.len();
                let mut i: usize = 0;
                while i < n
                    invariant
                        n == fs@.len(),
                        vfs.len() == n,
                        i <= n,
                        forall|m: int| 0 <= m < n ==> (#[trigger] vfs[m]).0 == fs@[m].0@ && vfs[m].1 == json_view(fs@[m].1),
                        field_pos(vfs, key@, 0) == field_pos(vfs, key@, i as int),
                    decreases n - i,
                {
                    assert(vfs[i as int].0 == fs@[i as int].0@);
                    if fs[i].0 == k {
                        assert(field_pos(vfs, key@, i as int) == i);
                        return Some(&fs[i].1);
                    }
                    i = i + 1;
                }
                proof {
                    lemma_field_pos(vfs, key@, 0);
                }
                None
            },
            _ => None,
        }
    }

    /// `value[key] = x` on an object or null; other values are returned as they are.
    #[verifier::loop_isolation(false)]
    pub fn put(self, key: String, x: Json) -> (r: Json)
        ensures
            r@ == json_put(self@, key@, x@),
    {
        match self {
            Json::Object(fs) => {
                let ghost vfs = match self@ {
                    JsonV::Object(v) => v,
                    _ => Seq::empty(),
                };
                let mut fs = fs;
                let n = fs.len();
                let mut i: usize = 0;
                while i < n
                    invariant
                        n == fs@.len(),
                        vfs.len() == n,
                        i <= n,
                        forall|m: int| 0 <= m < n ==> (#[trigger] vfs[m]).0 == fs@[m].0@ && vfs[m].1 == json_view(fs@[m].1),
                        field_pos(vfs, key@, 0) == field_pos(vfs, key@, i as int),
                    decreases n - i,
                {
                    assert(vfs[i as int].0 == fs@[i as int].0@);
                    if fs[i].0 == key {
                        let ghost kv = key@;
                        let ghost xv = x@;
                        assert(field_pos(vfs, kv, i as int) == i);
                        fs.set(i, (key, x));
                        let r = Json::Object(fs);
                        proof {
                            assert(json_view(r)->Object_0 =~= vfs.update(i as int, (kv, xv)));
                        }
                        return r;
                    }
                    i = i + 1;
                }
                let ghost kv = key@;
                let ghost xv = x@;
                proof {
                    lemma_field_pos(vfs, kv, 0);
                }
                fs.push((key, x));
                let r = Json::Object(fs);
                proof {
                    assert(json_view(r)->Object_0 =~= vfs.push((kv, xv)));
                }
                r
            },
            Json::Null => {
                let ghost kv = key@;
                let ghost xv = x@;
                let mut fs: Vec<(String, Json)> = Vec::new();
                fs.push((key, x));
                let r = Json::Object(fs);
                proof {
                    assert(json_view(r)->Object_0 =~= seq![(kv, xv)]);
                }
                r
            },
            other => other,
        }
    }
}


/// The members of an object value; empty for other values.
pub open spec fn members(v: JsonV) -> Seq<(Seq<char>, JsonV)> {
    match v {
        JsonV::Object(fs) => fs,
        _ => Seq::empty(),
    }
}

/// The elements of an array value; empty for other values.
pub open spec fn elements(v: JsonV) -> Seq<JsonV> {
    match v {
        JsonV::Array(a) => a,
        _ => Seq::empty(),
    }
}

impl Json {
    /// A string value.
    pub fn string(s: &str) -> (r: Json)
        ensures
            r@ == JsonV::Str(s@),
    {
        Json::Str(String::from_str(s))
    }

    /// A number value for an unsigned integer.
    pub fn unsigned(n: u64) -> (r: Json)
        ensures
            r@ == JsonV::Int(n as int),
    {
        Json::Number(JsonNumber::PosInt(n))
    }

    /// A number value for a signed integer.
    pub fn signed(n: i64) -> (r: Json)
        ensures
            r@ == JsonV::Int(n as int),
    {
        if n < 0 {
            Json::Number(JsonNumber::NegInt(n))
        } else {
            Json::Number(JsonNumber::PosInt(n as u64))
        }
    }

    /// An object with no members.
    pub fn empty_object() -> (r: Json)
        ensures
            r@ == JsonV::Object(Seq::empty()),
    {
        let fs: Vec<(String, Json)> = Vec::new();
        let r = Json::Object(fs);
        assert(json_view(r)->Object_0 =~= Seq::empty());
        r
    }

    /// An array with no elements.
    pub fn empty_array() -> (r: Json)
        ensures
            r@ == JsonV::Array(Seq::empty()),
    {
        let a: Vec<Json> = Vec::new();
        let r = Json::Array(a);
        assert(json_view(r)->Array_0 =~= Seq::empty());
        r
    }

    /// The object with one more member at the end.
    pub fn member(self, key: &str, x: Json) -> (r: Json)
        requires
            self@ is Object,
        ensures
            r@ == JsonV::Object(members(self@).push((key@, x@))),
    {
        match self {
            Json::Object(fs) => {
                let ghost old_fs = members(self@);
                let ghost kv = key@;
                let ghost xv = x@;
                let mut fs = fs;
                fs.push((String::from_str(key), x));
                let r = Json::Object(fs);
                assert(json_view(r)->Object_0 =~= old_fs.push((kv, xv)));
                r
            },
            other => other,
        }
    }

    /// The array with one more element at the end.
    pub fn element(self, x: Json) -> (r: Json)
        requires
            self@ is Array,
        ensures
            r@ == JsonV::Array(elements(self@).push(x@)),
    {
        match self {
            Json::Array(a) => {
                let ghost old_a = elements(self@);
                let ghost xv = x@;
                let mut a = a;
                a.push(x);
                let r = Json::Array(a);
                assert(json_view(r)->Array_0 =~= old_a.push(xv));
                r
            },
            other => other,
        }
    }

    /// The array with `x` inserted at position `i`.
    pub fn insert_element(self, i: usize, x: Json) -> (r: Json)
        requires
            self@ is Array,
            i <= elements(self@).len(),
        ensures
            r@ == JsonV::Array(elements(self@).insert(i as int, x@)),
    {
        match self {
            Json::Array(a) => {
                let ghost old_a = elements(self@);
                let ghost xv = x@;
                let mut a = a;
                a.insert(i, x);
                let r = Json::Array(a);
                assert(json_view(r)->Array_0 =~= old_a.insert(i as int, xv));
                r
            },
            other => other,
        }
    }

    /// `value.as_str()`, as an owned string.
    pub fn as_str(&self) -> (r: Option<String>)
        ensures
            match r {
                Some(s) => json_as_str(self@) == Some(s@),
                None => json_as_str(self@) is None,
            },
    {
        match self {
            Json::Str(s) => Some(s.clone()),
            _ => None,
        }
    }

    /// `value.as_u64()`.
    pub fn as_u64(&self) -> (r: Option<u64>)
        ensures
            match r {
                Some(n) => json_as_u64(self@) == Some(n as nat),
                None => json_as_u64(self@) is None,
            },
    {
        match self {
            Json::Number(JsonNumber::PosInt(u)) => Some(*u),
            Json::Number(JsonNumber::NegInt(i)) => {
                if *i >= 0 {
                    Some(*i as u64)
                } else {
                    None
                }
            },
            _ => None,
        }
    }

    /// `value.as_i64()`.
    pub fn as_i64(&self) -> (r: Option<i64>)
        ensures
            match r {
                Some(n) => json_as_i64(self@) == Some(n as int),
                None => json_as_i64(self@) is None,
            },
    {
        match self {
            Json::Number(JsonNumber::PosInt(u)) => {
                if *u <= 9223372036854775807u64 {
                    Some(*u as i64)
                } else {
                    None
                }
            },
            Json::Number(JsonNumber::NegInt(i)) => Some(*i),
            _ => None,
        }
    }

    /// Whether the value is an object.
    pub fn is_object(&self) -> (r: bool)
        ensures
            r == (self@ is Object),
    {
        match self {
            Json::Object(_) => true,
            _ => false,
        }
    }

    /// `value[key]` when reading: the member, or null.
    pub fn index(&self, key: &str) -> (r: Json)
        ensures
            r@ == json_index(self@, key@),
    {
        match self.get(key) {
            Some(x) => x.copy(),
            None => Json::Null,
        }
    }
}


#[verifier::external_type_specification]
#[verifier::external_body]
pub struct ExJsonValue(serde_json::Value);

/// What `serde_json::from_str::<serde_json::Value>` makes of a text: the
/// value it reads, or the message of the error it reports.
pub uninterp spec fn json_text_parse(text: Seq<char>) -> Result<JsonV, Seq<char>>;

#[verifier::external_type_specification]
#[verifier::external_body]
pub struct ExJsonNumberValue(serde_json::Number);

/// Turns a `serde_json::Number` into the same number of this crate: `PosInt`
/// when `as_u64` reads it, else `NegInt` when `as_i64` reads it, else
/// `Float` with its decimal text.
#[verifier::external_body]
fn number_from_serde(n: serde_json::Number) -> JsonNumber {
    match (n.as_u64(), n.as_i64()) {
        (Some(u), _) => JsonNumber::PosInt(u),
        (None, Some(i)) => JsonNumber::NegInt(i),
        (None, None) => JsonNumber::Float(n.to_string()),
    }
}

/// Turns a `serde_json::Value` into the same value of this crate, variant by
/// variant, members in the order the map keeps them.
#[verifier::external_body]
fn json_from_serde(v: serde_json::Value) -> Json {
    match v {
        serde_json::Value::Null => Json::Null,
        serde_json::Value::Bool(b) => Json::Bool(b),
        serde_json::Value::Number(n) => Json::Number(number_from_serde(n)),
        serde_json::Value::String(s) => Json::Str(s),
        serde_json::Value::Array(a) => Json::Array(a.into_iter().map(json_from_serde).collect()),
        serde_json::Value::Object(m) => Json::Object(m.into_iter().map(|(k, x)| (k, json_from_serde(x))).collect()),
    }
}

/// `serde_json::from_str::<serde_json::Value>(text)`: the contract claims no
/// more than that the outcome is `json_text_parse(text)`, the value read or the
/// text of the error; the JSON grammar itself is left to `serde_json`.
#[verifier::external_body]
pub(crate) fn parse_json(text: &str) -> (r: Result<Json, String>)
    ensures
        match r {
            Ok(j) => json_text_parse(text@) == Ok::<JsonV, Seq<char>>(j@),
            Err(e) => json_text_parse(text@) == Err::<JsonV, Seq<char>>(e@),
        },
{
    match serde_json::from_str::<serde_json::Value>(text) {
        Ok(v) => Ok(json_from_serde(v)),
        Err(e) => Err(e.to_string()),
    }
}


/// The object with these 1 members, in this order.
pub fn obj1(k1: &str, v1: Json) -> (r: Json)
    ensures
        r@ == JsonV::Object(seq![(k1@, v1@)]),
{
    let ghost g1 = (k1@, v1@);
    let r = Json::empty_object().member(k1, v1);
    assert(members(r@) =~= seq![g1]);
    r
}

/// The object with these 2 members, in this order.
pub fn obj2(k1: &str, v1: Json, k2: &str, v2: Json) -> (r: Json)
    ensures
        r@ == JsonV::Object(seq![(k1@, v1@), (k2@, v2@)]),
{
    let ghost g1 = (k1@, v1@);
    let ghost g2 = (k2@, v2@);
    let r = Json::empty_object().member(k1, v1).member(k2, v2);
    assert(members(r@) =~= seq![g1, g2]);
    r
}

/// The object with these 3 members, in this order.
pub fn obj3(k1: &str, v1: Json, k2: &str, v2: Json, k3: &str, v3: Json) -> (r: Json)
    ensures
        r@ == JsonV::Object(seq![(k1@, v1@), (k2@, v2@), (k3@, v3@)]),
{
    let ghost g1 = (k1@, v1@);
    let ghost g2 = (k2@, v2@);
    let ghost g3 = (k3@, v3@);
    let r = Json::empty_object().member(k1, v1).member(k2, v2).member(k3, v3);
    assert(members(r@) =~= seq![g1, g2, g3]);
    r
}

/// The object with these 4 members, in this order.
pub fn obj4(k1: &str, v1: Json, k2: &str, v2: Json, k3: &str, v3: Json, k4: &str, v4: Json) -> (r: Json)
    ensures
        r@ == JsonV::Object(seq![(k1@, v1@), (k2@, v2@), (k3@, v3@), (k4@, v4@)]),
{
    let ghost g1 = (k1@, v1@);
    let ghost g2 = (k2@, v2@);
    let ghost g3 = (k3@, v3@);
    let ghost g4 = (k4@, v4@);
    let r = Json::empty_object().member(k1, v1).member(k2, v2).member(k3, v3).member(k4, v4);
    assert(members(r@) =~= seq![g1, g2, g3, g4]);
    r
}

/// The object with these 5 members, in this order.
pub fn obj5(k1: &str, v1: Json, k2: &str, v2: Json, k3: &str, v3: Json, k4: &str, v4: Json, k5: &str, v5: Json) -> (r: Json)
    ensures
        r@ == JsonV::Object(seq![(k1@, v1@), (k2@, v2@), (k3@, v3@), (k4@, v4@), (k5@, v5@)]),
{
    let ghost g1 = (k1@, v1@);
    let ghost g2 = (k2@, v2@);
    let ghost g3 = (k3@, v3@);
    let ghost g4 = (k4@, v4@);
    let ghost g5 = (k5@, v5@);
    let r = Json::empty_object().member(k1, v1).member(k2, v2).member(k3, v3).member(k4, v4).member(k5, v5);
    assert(members(r@) =~= seq![g1, g2, g3, g4, g5]);
    r
}

/// The object with these 6 members, in this order.
pub fn obj6(k1: &str, v1: Json, k2: &str, v2: Json, k3: &str, v3: Json, k4: &str, v4: Json, k5: &str, v5: Json, k6: &str, v6: Json) -> (r: Json)
    ensures
        r@ == JsonV::Object(seq![(k1@, v1@), (k2@, v2@), (k3@, v3@), (k4@, v4@), (k5@, v5@), (k6@, v6@)]),
{
    let ghost g1 = (k1@, v1@);
    let ghost g2 = (k2@, v2@);
    let ghost g3 = (k3@, v3@);
    let ghost g4 = (k4@, v4@);
    let ghost g5 = (k5@, v5@);
    let ghost g6 = (k6@, v6@);
    let r = Json::empty_object().member(k1, v1).member(k2, v2).member(k3, v3).member(k4, v4).member(k5, v5).member(k6, v6);
    assert(members(r@) =~= seq![g1, g2, g3, g4, g5, g6]);
    r
}

/// The object with these 7 members, in this order.
pub fn obj7(k1: &str, v1: Json, k2: &str, v2: Json, k3: &str, v3: Json, k4: &str, v4: Json, k5: &str, v5: Json, k6: &str, v6: Json, k7: &str, v7: Json) -> (r: Json)
    ensures
        r@ == JsonV::Object(seq![(k1@, v1@), (k2@, v2@), (k3@, v3@), (k4@, v4@), (k5@, v5@), (k6@, v6@), (k7@, v7@)]),
{
    let ghost g1 = (k1@, v1@);
    let ghost g2 = (k2@, v2@);
    let ghost g3 = (k3@, v3@);
    let ghost g4 = (k4@, v4@);
    let ghost g5 = (k5@, v5@);
    let ghost g6 = (k6@, v6@);
    let ghost g7 = (k7@, v7@);
    let r = Json::empty_object().member(k1, v1).member(k2, v2).member(k3, v3).member(k4, v4).member(k5, v5).member(k6, v6).member(k7, v7);
    assert(members(r@) =~= seq![g1, g2, g3, g4, g5, g6, g7]);
    r
}

/// The array with this one element.
pub fn arr1(v1: Json) -> (r: Json)
    ensures
        r@ == JsonV::Array(seq![v1@]),
{
    let ghost g1 = v1@;
    let r = Json::empty_array().element(v1);
    assert(elements(r@) =~= seq![g1]);
    r
}

/// A string value holding a copy of `s`.
pub fn text(s: &String) -> (r: Json)
    ensures
        r@ == JsonV::Str(s@),
{
    Json::Str(s.clone())
}

} // verus!
