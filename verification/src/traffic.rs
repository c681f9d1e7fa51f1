//! Traffic counters of the running proxy: from the socket table that
//! `ss -tni` prints, or from the statistics that Xray's API reports.
use vstd::prelude::*;
use crate::json::{Json, JsonV, json_index, json_as_str, json_as_u64, elements, json_text_parse, parse_json};
use crate::text::{is_ws, is_whitespace, has_prefix, has_suffix, has_infix, split_on, views_of, parse_unsigned, chars_of, contains_chars, split_chars, parse_unsigned_chars, matches_at};

verus! {

/// Bytes received and sent through the proxy.
#[derive(Debug, Clone, Copy, PartialEq, Eq, Structural)]
pub struct TrafficStatsResponse {
    pub in_bytes: u64,
    pub out_bytes: u64,
}

/// The words of a text, as `str::split_whitespace` gives them, together with
/// the word being read at its end: a left-to-right reading.
pub open spec fn words_acc(s: Seq<char>) -> (Seq<Seq<char>>, Seq<char>)
    decreases s.len(),
{
    if s.len() == 0 {
        (Seq::empty(), Seq::empty())
    } else {
        let (ws, cur) = words_acc(s.drop_last());
        let c = s.last();
        if is_ws(c) {
            if cur.len() > 0 {
                (ws.push(cur), Seq::empty())
            } else {
                (ws, Seq::empty())
            }
        } else {
            (ws, cur.push(c))
        }
    }
}

/// `str::split_whitespace`: the maximal runs of non-whitespace characters.
pub open spec fn words(s: Seq<char>) -> Seq<Seq<char>> {
    let (ws, cur) = words_acc(s);
    if cur.len() > 0 {
        ws.push(cur)
    } else {
        ws
    }
}

/// The words of `s`.
pub fn split_words(s: &Vec<char>) -> (r: Vec<Vec<char>>)
    ensures
        views_of(r@) == words(s@),
{
    let mut done: Vec<Vec<char>> = Vec::new();
    let mut cur: Vec<char> = Vec::new();
    let n = s.len();
    for i in 0..n
        invariant
            n == s@.len(),
            (views_of(done@), cur@) == words_acc(s@.take(i as int)),
    {
        let c = s[i];
        proof {
            assert(s@.take(i + 1).drop_last() =~= s@.take(i as int));
            assert(s@.take(i + 1).last() == c);
        }
        if is_whitespace(c) {
            if cur.len() > 0 {
                let ghost before = views_of(done@);
                done.push(cur);
                proof {
                    assert(views_of(done@) =~= before.push(views_of(done@).last()));
                }
                cur = Vec::new();
            } else {
                cur = Vec::new();
            }
        } else {
            cur.push(c);
        }
    }
    proof {
        assert(s@.take(n as int) =~= s@);
    }
    if cur.len() > 0 {
        let ghost before = views_of(done@);
        done.push(cur);
        proof {
            assert(views_of(done@) =~= before.push(views_of(done@).last()));
        }
    }
    done
}

/// The number after the first `:` of a `name:value` word (`split(':').nth(1)`
/// parsed as a `u64`), or nothing when there is none or it does not parse.
pub open spec fn counter_value(w: Seq<char>) -> nat {
    let ps = split_on(w, ':');
    if ps.len() >= 2 {
        match parse_unsigned(ps[1], u64::MAX as nat) {
            Some(v) => v,
            None => 0,
        }
    } else {
        0
    }
}

/// The sum of the counters of the words that begin with `key`.
pub open spec fn counter_sum(ws: Seq<Seq<char>>, key: Seq<char>) -> nat
    decreases ws.len(),
{
    if ws.len() == 0 {
        0
    } else {
        counter_sum(ws.drop_last(), key) + (if has_prefix(ws.last(), key) {
            counter_value(ws.last())
        } else {
            0
        })
    }
}

/// A socket line of `ss` whose local address is one of the proxy's
/// listening ports, 10808 (SOCKS) or 10809 (HTTP).
pub open spec fn is_proxy_socket(line: Seq<char>) -> bool {
    let parts = words(line);
    parts.len() >= 5 && (has_suffix(parts[3], ":10808"@) || has_suffix(parts[3], ":10809"@))
}

/// Reading `ss -tni` line by line: the bytes received and sent so far, and
/// whether the last socket line was one of the proxy's. The counters of a
/// proxy socket stand on the first line after it that holds `bytes_sent:`.
pub open spec fn socket_scan(lines: Seq<Seq<char>>) -> (nat, nat, bool)
    decreases lines.len(),
{
    if lines.len() == 0 {
        (0, 0, false)
    } else {
        let (rx, tx, open) = socket_scan(lines.drop_last());
        let l = lines.last();
        if has_infix(l, "ESTAB"@) {
            (rx, tx, is_proxy_socket(l))
        } else if open && has_infix(l, "bytes_sent:"@) {
            let ws = words(l);
            (rx + counter_sum(ws, "bytes_received:"@), tx + counter_sum(ws, "bytes_sent:"@), false)
        } else {
            (rx, tx, open)
        }
    }
}

/// Bytes are counted only after a socket line: a listing in which no line
/// is an established socket counts nothing, whatever counters it shows.
pub proof fn law_no_socket_no_traffic(lines: Seq<Seq<char>>)
    requires
        forall|i: int| 0 <= i < lines.len() ==> !has_infix(#[trigger] lines[i], "ESTAB"@),
    ensures
        socket_scan(lines) == (0nat, 0nat, false),
    decreases lines.len(),
{
    if lines.len() > 0 {
        assert forall|i: int| 0 <= i < lines.drop_last().len() implies !has_infix(
            #[trigger] lines.drop_last()[i],
            "ESTAB"@,
        ) by {
            assert(lines.drop_last()[i] == lines[i]);
        }
        law_no_socket_no_traffic(lines.drop_last());
        assert(!has_infix(lines[lines.len() - 1], "ESTAB"@));
    }
}

/// Counters on a line right after a socket of another program do not count:
/// such a socket line closes the reading, and so does any counter line.
pub proof fn law_other_sockets_not_counted(lines: Seq<Seq<char>>, l: Seq<char>)
    requires
        has_infix(l, "ESTAB"@),
        !is_proxy_socket(l),
    ensures
        socket_scan(lines.push(l)).2 == false,
        socket_scan(lines.push(l)).0 == socket_scan(lines).0,
        socket_scan(lines.push(l)).1 == socket_scan(lines).1,
{
    assert(lines.push(l).drop_last() =~= lines);
}

/// A socket line of the proxy followed by its counter line adds that line's
/// received and sent byte counts to the totals, and closes the reading.
pub proof fn law_proxy_socket_counted(lines: Seq<Seq<char>>, sock: Seq<char>, counters: Seq<char>)
    requires
        has_infix(sock, "ESTAB"@),
        is_proxy_socket(sock),
        !has_infix(counters, "ESTAB"@),
        has_infix(counters, "bytes_sent:"@),
    ensures
        socket_scan(lines.push(sock).push(counters)) == (
            socket_scan(lines).0 + counter_sum(words(counters), "bytes_received:"@),
            socket_scan(lines).1 + counter_sum(words(counters), "bytes_sent:"@),
            false,
        ),
{
    let (rx, tx, _) = socket_scan(lines);
    assert(lines.push(sock).drop_last() =~= lines);
    assert(lines.push(sock).last() == sock);
    assert(socket_scan(lines.push(sock)) == (rx, tx, true));
    assert(lines.push(sock).push(counters).drop_last() =~= lines.push(sock));
    assert(lines.push(sock).push(counters).last() == counters);
}

/// The proxy's traffic in an `ss -tni` listing, read over its lines. Splitting
/// at `\n` gives the lines of `str::lines` up to a trailing `\r` and a last
/// empty line, neither of which changes what is counted.
pub open spec fn socket_traffic(out: Seq<char>) -> (nat, nat) {
    let (rx, tx, _) = socket_scan(split_on(out, '\n'));
    (rx, tx)
}

/// One more than `u64::MAX`: `u64` totals are kept modulo this.
pub open spec fn u64_modulus() -> int {
    0x1_0000_0000_0000_0000
}

/// Adding to a total kept modulo 2^64 with `wrapping_add` keeps the sum
/// modulo 2^64.
proof fn lemma_wrapping_step(acc: int, t: u64, v: u64)
    requires
        0 <= acc,
        t as int == acc % u64_modulus(),
    ensures
        t.wrapping_add(v) as int == (acc + v) % u64_modulus(),
{
    let m = u64_modulus();
    vstd::arithmetic::div_mod::lemma_add_mod_noop(acc, v as int, m);
    vstd::arithmetic::div_mod::lemma_small_mod(v as nat, m as nat);
    let x = t as int + v as int;
    if x >= m {
        vstd::arithmetic::div_mod::lemma_mod_add_multiples_vanish(x - m, m);
        vstd::arithmetic::div_mod::lemma_small_mod((x - m) as nat, m as nat);
    } else {
        vstd::arithmetic::div_mod::lemma_small_mod(x as nat, m as nat);
    }
}

/// The bytes that the words beginning with `key` count, added up in a `u64`
/// that wraps around as a release build's `+=` does.
fn sum_counters(ws: &Vec<Vec<char>>, key: &Vec<char>) -> (r: u64)
    ensures
        r as int == counter_sum(views_of(ws@), key@) as int % u64_modulus(),
{
    let mut total: u64 = 0;
    let n = ws.len();
    for i in 0..n
        invariant
            n == ws@.len(),
            total as int == counter_sum(views_of(ws@).take(i as int), key@) as int % u64_modulus(),
    {
        let w = &ws[i];
        proof {
            assert(views_of(ws@).take(i + 1).drop_last() =~= views_of(ws@).take(i as int));
            assert(views_of(ws@).take(i + 1).last() == w@);
        }
        let mut add: u64 = 0;
        if key.len() <= w.len() && matches_at(w, key, 0) {
            proof {
                assert(w@.subrange(0, key@.len() as int) == w@.take(key@.len() as int));
            }
            let ps = split_chars(w, ':');
            if ps.len() >= 2 {
                match parse_unsigned_chars(&ps[1], u64::MAX) {
                    Some(v) => {
                        add = v;
                    },
                    None => {},
                }
            }
        } else {
            proof {
                if key@.len() <= w@.len() {
                    assert(w@.subrange(0, key@.len() as int) == w@.take(key@.len() as int));
                }
            }
        }
        proof {
            lemma_wrapping_step(counter_sum(views_of(ws@).take(i as int), key@) as int, total, add);
        }
        total = total.wrapping_add(add);
    }
    proof {
        assert(views_of(ws@).take(n as int) =~= views_of(ws@));
    }
    total
}

/// The bytes received and sent through the proxy's listening sockets, from
/// the output of `ss -tni`, each total kept in a `u64` that wraps around
/// past `u64::MAX` as a release build's `+=` does.
pub fn ss_traffic_totals(stdout: &str) -> (r: TrafficStatsResponse)
    ensures
        r.in_bytes as int == socket_traffic(stdout@).0 as int % u64_modulus(),
        r.out_bytes as int == socket_traffic(stdout@).1 as int % u64_modulus(),
{
    let text = chars_of(stdout);
    let lines = split_chars(&text, '\n');
    let ghost ls = views_of(lines@);
    let estab = chars_of("ESTAB");
    let sent_marker = chars_of("bytes_sent:");
    let sent_key = chars_of("bytes_sent:");
    let received_key = chars_of("bytes_received:");
    let port_socks = chars_of(":10808");
    let port_http = chars_of(":10809");
    proof {
        reveal_strlit("ESTAB");
        reveal_strlit("bytes_sent:");
        reveal_strlit("bytes_received:");
        reveal_strlit(":10808");
        reveal_strlit(":10809");
    }
    let mut rx: u64 = 0;
    let mut tx: u64 = 0;
    let mut open = false;
    let n = lines.len();
    for i in 0..n
        invariant
            n == ls.len(),
            ls == views_of(lines@),
            ls == split_on(stdout@, '\n'),
            estab@ == "ESTAB"@,
            sent_marker@ == "bytes_sent:"@,
            sent_key@ == "bytes_sent:"@,
            received_key@ == "bytes_received:"@,
            port_socks@ == ":10808"@,
            port_http@ == ":10809"@,
            rx as int == socket_scan(ls.take(i as int)).0 as int % u64_modulus(),
            tx as int == socket_scan(ls.take(i as int)).1 as int % u64_modulus(),
            open == socket_scan(ls.take(i as int)).2,
    {
        let line = &lines[i];
        proof {
            assert(ls.take(i + 1).drop_last() =~= ls.take(i as int));
            assert(ls.take(i + 1).last() == line@);
        }
        if contains_chars(line, &estab) {
            let parts = split_words(line);
            let mut proxy = false;
            if parts.len() >= 5 {
                let local = &parts[3];
                let ghost lv = local@;
                assert(lv == words(line@)[3]);
                let a = local.len() >= port_socks.len() && matches_at(local, &port_socks, local.len() - port_socks.len());
                let b = local.len() >= port_http.len() && matches_at(local, &port_http, local.len() - port_http.len());
                proof {
                    if lv.len() >= 6 {
                        assert(lv.subrange(lv.len() - 6, lv.len() as int) =~= lv.skip(lv.len() - 6));
                    }
                }
                proxy = a || b;
            }
            open = proxy;
        } else if open && contains_chars(line, &sent_marker) {
            let ws = split_words(line);
            let r = sum_counters(&ws, &received_key);
            let s = sum_counters(&ws, &sent_key);
            proof {
                let (prx, ptx, _) = socket_scan(ls.take(i as int));
                let m = u64_modulus();
                vstd::arithmetic::div_mod::lemma_add_mod_noop(prx as int, counter_sum(words(line@), "bytes_received:"@) as int, m);
                vstd::arithmetic::div_mod::lemma_add_mod_noop(ptx as int, counter_sum(words(line@), "bytes_sent:"@) as int, m);
                lemma_wrapping_step(prx as int, rx, r);
                lemma_wrapping_step(ptx as int, tx, s);
                vstd::arithmetic::div_mod::lemma_add_mod_noop(prx as int, r as int, m);
                vstd::arithmetic::div_mod::lemma_add_mod_noop(ptx as int, s as int, m);
                vstd::arithmetic::div_mod::lemma_small_mod(r as nat, m as nat);
                vstd::arithmetic::div_mod::lemma_small_mod(s as nat, m as nat);
            }
            rx = rx.wrapping_add(r);
            tx = tx.wrapping_add(s);
            open = false;
        }
    }
    proof {
        assert(ls.take(n as int) =~= ls);
    }
    TrafficStatsResponse { in_bytes: rx, out_bytes: tx }
}

/// Whether the socket table showed any proxy traffic; when it shows none the
/// counters are asked of Xray's statistics API instead.
pub fn has_socket_traffic(t: &TrafficStatsResponse) -> (r: bool)
    ensures
        r == (t.in_bytes > 0 || t.out_bytes > 0),
{
    t.in_bytes > 0 || t.out_bytes > 0
}

/// Reading the `stat` entries of Xray's statistics reply in order: the value
/// of the last entry whose name holds `downlink` is the bytes received, that
/// of the last whose name holds `uplink` (and not `downlink`) the bytes sent.
pub open spec fn stats_scan(stats: Seq<JsonV>, start: (nat, nat)) -> (nat, nat)
    decreases stats.len(),
{
    if stats.len() == 0 {
        start
    } else {
        let (rx, tx) = stats_scan(stats.drop_last(), start);
        let st = stats.last();
        let name = match json_as_str(json_index(st, "name"@)) {
            Some(s) => s,
            None => Seq::empty(),
        };
        let value = match json_as_u64(json_index(st, "value"@)) {
            Some(v) => v,
            None => 0,
        };
        if has_infix(name, "downlink"@) {
            (value, tx)
        } else if has_infix(name, "uplink"@) {
            (rx, value)
        } else {
            (rx, tx)
        }
    }
}

/// One more statistics entry sets the bytes received when its name holds
/// `downlink`, else the bytes sent when it holds `uplink`, to its value, and
/// leaves the other counter as it was; any other entry changes nothing.
pub proof fn law_stats_entry_effect(stats: Seq<JsonV>, start: (nat, nat), st: JsonV)
    ensures
        ({
            let before = stats_scan(stats, start);
            let after = stats_scan(stats.push(st), start);
            let name = match json_as_str(json_index(st, "name"@)) {
                Some(s) => s,
                None => Seq::empty(),
            };
            let value = match json_as_u64(json_index(st, "value"@)) {
                Some(v) => v,
                None => 0,
            };
            &&& has_infix(name, "downlink"@) ==> after == (value, before.1)
            &&& !has_infix(name, "downlink"@) && has_infix(name, "uplink"@) ==> after == (before.0, value)
            &&& !has_infix(name, "downlink"@) && !has_infix(name, "uplink"@) ==> after == before
        }),
{
    assert(stats.push(st).drop_last() =~= stats);
}

/// The counters that Xray's statistics reply gives, starting from none.
pub open spec fn api_traffic(reply: JsonV) -> (nat, nat) {
    match json_index(reply, "stat"@) {
        JsonV::Array(stats) => stats_scan(stats, (0, 0)),
        _ => (0, 0),
    }
}

/// The traffic counters in a statistics reply of Xray's API.
#[verifier::loop_isolation(false)]
pub fn traffic_from_stats(reply: &Json) -> (r: TrafficStatsResponse)
    ensures
        (r.in_bytes as nat, r.out_bytes as nat) == api_traffic(reply@),
{
    let mut rx: u64 = 0;
    let mut tx: u64 = 0;
    let stats = match reply.get("stat") {
        Some(Json::Array(a)) => a,
        _ => {
            return TrafficStatsResponse { in_bytes: 0, out_bytes: 0 };
        },
    };
    let ghost sv = elements(json_index(reply@, "stat"@));
    assert(sv.len() == stats@.len());
    assert(forall|m: int| 0 <= m < sv.len() ==> #[trigger] sv[m] == stats@[m]@);
    let downlink = chars_of("downlink");
    let uplink = chars_of("uplink");
    proof {
        reveal_strlit("downlink");
        reveal_strlit("uplink");
    }
    let n = stats.len();
    for i in 0..n
        invariant
            n == sv.len(),
            downlink@ == "downlink"@,
            uplink@ == "uplink"@,
            stats_scan(sv.take(i as int), (0, 0)) == (rx as nat, tx as nat),
    {
        let st = &stats[i];
        proof {
            assert(sv.take(i + 1).drop_last() =~= sv.take(i as int));
            assert(sv.take(i + 1).last() == st@);
        }
        let name: Vec<char> = match st.get("name") {
            Some(Json::Str(s)) => chars_of(s.as_str()),
            _ => Vec::new(),
        };
        let value: u64 = match st.index("value").as_u64() {
            Some(v) => v,
            None => 0,
        };
        if contains_chars(&name, &downlink) {
            rx = value;
        } else if contains_chars(&name, &uplink) {
            tx = value;
        }
    }
    proof {
        assert(sv.take(n as int) =~= sv);
    }
    TrafficStatsResponse { in_bytes: rx, out_bytes: tx }
}

/// The traffic counters in the text of a statistics reply; none when the text
/// is no JSON.
pub fn traffic_from_stats_body(body: &str) -> (r: TrafficStatsResponse)
    ensures
        (r.in_bytes as nat, r.out_bytes as nat) == (match json_text_parse(body@) {
            Ok(v) => api_traffic(v),
            Err(_) => (0nat, 0nat),
        }),
{
    match parse_json(body) {
        Ok(doc) => traffic_from_stats(&doc),
        Err(_) => TrafficStatsResponse { in_bytes: 0, out_bytes: 0 },
    }
}

} // verus!
