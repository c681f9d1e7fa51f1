//! Zip archives in memory: the Xray release archive and the WinTun archive,
//! read with the `zip` crate, and what is taken out of them.
use vstd::prelude::*;
use std::io::{Cursor, Read};
use crate::setup::{path_push, law_path_push_keeps_dir_and_name};
use crate::text::{has_prefix, has_suffix, ends_with, join, split_on};
use crate::service::windows::{is_wintun_dll, is_wintun_dll_entry, wintun_arch, wintun_arch_spec};

verus! {

#[verifier::external_type_specification]
#[verifier::external_body]
#[verifier::reject_recursive_types(T)]
pub struct ExCursor<T>(std::io::Cursor<T>);

#[verifier::external_type_specification]
#[verifier::external_body]
#[verifier::reject_recursive_types(R)]
pub struct ExZipArchive<R>(zip::ZipArchive<R>);

/// What reading one archive entry gives: the outcome of `by_index` read
/// through the entry's name and its name as a safe relative path (none when
/// the name is absolute or climbs out), and the outcome of `by_index`
/// followed by reading the entry to its end; each error by its text.
pub type EntryV = (Result<(Seq<char>, Option<Seq<char>>), Seq<char>>, Result<Seq<u8>, Seq<char>>);

/// The entries of an opened archive, in the order of its central directory,
/// each as reading it gives it.
pub uninterp spec fn zip_entries(a: zip::ZipArchive<Cursor<Vec<u8>>>) -> Seq<
    (Result<(Seq<char>, Option<Seq<char>>), Seq<char>>, Result<Seq<u8>, Seq<char>>),
>;

/// What `zip::ZipArchive::new` makes of the bytes of an archive: its
/// entries, or the text of the error it reports.
pub uninterp spec fn zip_read(bytes: Seq<u8>) -> Result<
    Seq<(Result<(Seq<char>, Option<Seq<char>>), Seq<char>>, Result<Seq<u8>, Seq<char>>)>,
    Seq<char>,
>;

/// `zip::ZipArchive::new` on the bytes in memory. The contract claims only
/// that the outcome is `zip_read(bytes)`: the archive, whose entries it
/// names, or the error text; the zip format is left to the crate. Reading
/// from memory makes every later read of an entry depend on the bytes alone.
#[verifier::external_body]
fn zip_open(bytes: Vec<u8>) -> (r: Result<zip::ZipArchive<Cursor<Vec<u8>>>, String>)
    ensures
        match r {
            Ok(a) => zip_read(bytes@) == Ok::<Seq<EntryV>, Seq<char>>(zip_entries(a)),
            Err(e) => zip_read(bytes@) == Err::<Seq<EntryV>, Seq<char>>(e@),
        },
{
    zip::ZipArchive::new(Cursor::new(bytes)).map_err(|e| e.to_string())
}

/// `ZipArchive::len`: the number of entries.
#[verifier::external_body]
fn zip_len(a: &zip::ZipArchive<Cursor<Vec<u8>>>) -> (r: usize)
    ensures
        r == zip_entries(*a).len(),
{
    a.len()
}

/// `ZipArchive::by_index` with the entry's `name` and `enclosed_name`. The
/// contract claims that the outcome, success or error text, is the one that
/// the entries record for entry `i`, and that the entries stay as they are.
#[verifier::external_body]
fn zip_entry_names(a: &mut zip::ZipArchive<Cursor<Vec<u8>>>, i: usize) -> (r: Result<(String, Option<String>), String>)
    requires
        i < zip_entries(*old(a)).len(),
    ensures
        zip_entries(*final(a)) == zip_entries(*old(a)),
        match r {
            Ok(p) => zip_entries(*old(a))[i as int].0 == Ok::<(Seq<char>, Option<Seq<char>>), Seq<char>>(
                (p.0@, opt_text(p.1)),
            ),
            Err(e) => zip_entries(*old(a))[i as int].0 == Err::<(Seq<char>, Option<Seq<char>>), Seq<char>>(e@),
        },
{
    let f = a.by_index(i).map_err(|e| e.to_string())?;
    let enclosed = match f.enclosed_name() {
        Some(p) => Some(p.to_string_lossy().into_owned()),
        None => None,
    };
    Ok((f.name().to_string(), enclosed))
}

/// `ZipArchive::by_index` and reading the entry to its end. The contract
/// claims that the outcome, the bytes or the error text, is the one that the
/// entries record for entry `i`, and that the entries stay as they are.
#[verifier::external_body]
fn zip_entry_data(a: &mut zip::ZipArchive<Cursor<Vec<u8>>>, i: usize) -> (r: Result<Vec<u8>, String>)
    requires
        i < zip_entries(*old(a)).len(),
    ensures
        zip_entries(*final(a)) == zip_entries(*old(a)),
        match r {
            Ok(d) => zip_entries(*old(a))[i as int].1 == Ok::<Seq<u8>, Seq<char>>(d@),
            Err(e) => zip_entries(*old(a))[i as int].1 == Err::<Seq<u8>, Seq<char>>(e@),
        },
{
    let mut f = a.by_index(i).map_err(|e| e.to_string())?;
    let mut data = Vec::new();
    f.read_to_end(&mut data).map_err(|e| e.to_string())?;
    Ok(data)
}

/// The bytes that a read gives, or its error text.
pub open spec fn bytes_result(r: Result<Vec<u8>, String>) -> Result<Seq<u8>, Seq<char>> {
    match r {
        Ok(d) => Ok(d@),
        Err(e) => Err(e@),
    }
}

pub open spec fn opt_text(o: Option<String>) -> Option<Seq<char>> {
    match o {
        Some(s) => Some(s@),
        None => None,
    }
}

/// What extracting the Xray archive does with one entry.
pub enum ExtractAction {
    /// Create this directory.
    CreateDir(String),
    /// Write these bytes to this file (creating its parent directories), and
    /// mark it executable when asked.
    WriteFile { path: String, data: Vec<u8>, executable: bool },
}

pub ghost enum ExtractActionV {
    CreateDir(Seq<char>),
    WriteFile { path: Seq<char>, data: Seq<u8>, executable: bool },
}

impl View for ExtractAction {
    type V = ExtractActionV;

    open spec fn view(&self) -> ExtractActionV {
        match self {
            ExtractAction::CreateDir(p) => ExtractActionV::CreateDir(p@),
            ExtractAction::WriteFile { path, data, executable } => ExtractActionV::WriteFile {
                path: path@,
                data: data@,
                executable: *executable,
            },
        }
    }
}

/// The segments of a path that name something: not empty, not `.`.
pub open spec fn named_segments(segs: Seq<Seq<char>>) -> Seq<Seq<char>>
    decreases segs.len(),
{
    if segs.len() == 0 {
        Seq::empty()
    } else {
        let rest = named_segments(segs.drop_last());
        let s = segs.last();
        if s.len() == 0 || s == "."@ {
            rest
        } else {
            rest.push(s)
        }
    }
}

/// `Path::file_name` of a `/`-separated path: its last named segment, none
/// when there is none or it is `..`.
pub open spec fn file_name(path: Seq<char>) -> Option<Seq<char>> {
    let segs = named_segments(split_on(path, '/'));
    if segs.len() == 0 || segs.last() == ".."@ {
        None
    } else {
        Some(segs.last())
    }
}

/// What extracting an entry named `name`, with safe path `enclosed` and
/// bytes `data`, into `dir` does: nothing for an entry without a safe path;
/// a directory for a name ending in `/`; else the file, marked executable on
/// Unix when it is named `xray`.
pub open spec fn extract_action(
    name: Seq<char>,
    enclosed: Option<Seq<char>>,
    data: Seq<u8>,
    dir: Seq<char>,
    windows: bool,
) -> Option<ExtractActionV> {
    match enclosed {
        None => None,
        Some(rel) => {
            let path = path_push(dir, rel, windows);
            if has_suffix(name, "/"@) {
                Some(ExtractActionV::CreateDir(path))
            } else {
                Some(
                    ExtractActionV::WriteFile {
                        path: path,
                        data: data,
                        executable: !windows && file_name(path) == Some("xray"@),
                    },
                )
            }
        },
    }
}

/// Whether extracting an entry needs its bytes: a file with a safe path.
pub open spec fn needs_data(name: Seq<char>, enclosed: Option<Seq<char>>) -> bool {
    enclosed is Some && !has_suffix(name, "/"@)
}

/// Extracting the entries in order: the actions so far, and the error text
/// that stopped the extraction, if an entry could not be read. An entry's
/// bytes are read only when it is a file with a safe path.
pub open spec fn extraction_steps(es: Seq<EntryV>, dir: Seq<char>, windows: bool) -> (
    Seq<ExtractActionV>,
    Option<Seq<char>>,
)
    decreases es.len(),
{
    if es.len() == 0 {
        (Seq::empty(), None)
    } else {
        let (acts, err) = extraction_steps(es.drop_last(), dir, windows);
        if err is Some {
            (acts, err)
        } else {
            match es.last().0 {
                Err(m) => (acts, Some(m)),
                Ok((name, enclosed)) => {
                    let data: Result<Seq<u8>, Seq<char>> = if needs_data(name, enclosed) {
                        es.last().1
                    } else {
                        Ok(Seq::empty())
                    };
                    match data {
                        Err(m) => (acts, Some(m)),
                        Ok(d) => match extract_action(name, enclosed, d, dir, windows) {
                            Some(x) => (acts.push(x), None),
                            None => (acts, None),
                        },
                    }
                },
            }
        }
    }
}

/// Once an entry could not be read, the entries after it change nothing.
proof fn lemma_steps_stop(es: Seq<EntryV>, dir: Seq<char>, windows: bool, i: int)
    requires
        0 <= i <= es.len(),
        extraction_steps(es.take(i), dir, windows).1 is Some,
    ensures
        extraction_steps(es, dir, windows) == extraction_steps(es.take(i), dir, windows),
    decreases es.len() - i,
{
    if i < es.len() {
        assert(es.take(i + 1).drop_last() =~= es.take(i));
        lemma_steps_stop(es, dir, windows, i + 1);
    } else {
        assert(es.take(i) =~= es);
    }
}

/// The path that an extraction action creates or writes.
pub open spec fn action_path(a: ExtractActionV) -> Seq<char> {
    match a {
        ExtractActionV::CreateDir(p) => p,
        ExtractActionV::WriteFile { path, .. } => path,
    }
}

/// Extracting the Xray archive stays inside the Xray directory: every
/// directory and file it makes lies under that directory. A written file is
/// marked executable only when it is named `xray`, and never on Windows.
pub proof fn law_extraction_stays_in_dir(es: Seq<EntryV>, dir: Seq<char>, windows: bool)
    ensures
        forall|i: int|
            0 <= i < extraction_steps(es, dir, windows).0.len() ==> has_prefix(
                action_path(#[trigger] extraction_steps(es, dir, windows).0[i]),
                dir,
            ),
        forall|i: int|
            0 <= i < extraction_steps(es, dir, windows).0.len() ==> (#[trigger] extraction_steps(
                es,
                dir,
                windows,
            ).0[i] matches ExtractActionV::WriteFile { path, executable, .. } ==> (executable ==> !windows
                && file_name(path) == Some("xray"@))),
    decreases es.len(),
{
    if es.len() > 0 {
        law_extraction_stays_in_dir(es.drop_last(), dir, windows);
        let (acts, err) = extraction_steps(es.drop_last(), dir, windows);
        if err is None {
            if let Ok((name, enclosed)) = es.last().0 {
                if let Some(rel) = enclosed {
                    law_path_push_keeps_dir_and_name(dir, rel, windows);
                }
            }
        }
        let now = extraction_steps(es, dir, windows).0;
        assert(now.len() == acts.len() || now.len() == acts.len() + 1);
        assert(forall|i: int| 0 <= i < acts.len() ==> now[i] == acts[i]);
    }
}

pub open spec fn actions_view(v: Seq<ExtractAction>) -> Seq<ExtractActionV> {
    v.map_values(|a: ExtractAction| a@)
}

/// The file name of a `/`-separated path.
fn file_name_of(path: &str) -> (r: Option<String>)
    ensures
        opt_text(r) == file_name(path@),
{
    let cs = crate::text::chars_of(path);
    let pieces = crate::text::split_chars(&cs, '/');
    let ghost segs = crate::text::views_of(pieces@);
    let mut last: Option<Vec<char>> = None;
    let n = pieces.len();
    let ghost dot = "."@;
    proof {
        reveal_strlit(".");
    }
    for i in 0..n
        invariant
            n == segs.len(),
            segs == crate::text::views_of(pieces@),
            dot == "."@,
            dot.len() == 1 && dot[0] == '.',
            match last {
                Some(l) => named_segments(segs.take(i as int)).len() > 0 && l@ == named_segments(segs.take(i as int)).last(),
                None => named_segments(segs.take(i as int)).len() == 0,
            },
    {
        let p = &pieces[i];
        proof {
            assert(segs.take(i + 1).drop_last() =~= segs.take(i as int));
            assert(segs.take(i + 1).last() == p@);
        }
        let is_dot = p.len() == 1 && p[0] == '.';
        proof {
            if p@.len() == 1 && p@[0] == '.' {
                assert(p@ =~= dot);
            }
            if p@ == dot {
                assert(p@.len() == 1 && p@[0] == '.');
            }
        }
        if p.len() > 0 && !is_dot {
            last = Some(p.clone());
        }
    }
    proof {
        assert(segs.take(n as int) =~= segs);
        reveal_strlit("..");
    }
    match last {
        None => None,
        Some(l) => {
            let is_up = l.len() == 2 && l[0] == '.' && l[1] == '.';
            proof {
                if l@.len() == 2 && l@[0] == '.' && l@[1] == '.' {
                    assert(l@ =~= ".."@);
                }
                if l@ == ".."@ {
                    assert(l@.len() == 2 && l@[0] == '.' && l@[1] == '.');
                }
            }
            if is_up {
                None
            } else {
                Some(crate::text::string_from_chars(l.as_slice()))
            }
        },
    }
}

/// The action for one entry of the archive.
fn entry_action(name: &str, enclosed: Option<String>, data: Vec<u8>, dir: &str, windows: bool) -> (r: Option<ExtractAction>)
    ensures
        match r {
            Some(a) => extract_action(name@, opt_text(enclosed), data@, dir@, windows) == Some(a@),
            None => extract_action(name@, opt_text(enclosed), data@, dir@, windows) is None,
        },
{
    match enclosed {
        None => None,
        Some(rel) => {
            let path = crate::setup::join_path(dir, rel.as_str(), windows);
            if ends_with(name, "/") {
                Some(ExtractAction::CreateDir(path))
            } else {
                let executable = !windows && match file_name_of(path.as_str()) {
                    Some(f) => crate::text::str_eq(f.as_str(), "xray"),
                    None => false,
                };
                Some(ExtractAction::WriteFile { path, data, executable })
            }
        },
    }
}

/// What extracting the Xray release archive into `xray_dir` does: the
/// actions for its entries, in order, and the error that stopped it, if any.
/// An archive that cannot be opened gives no action and that error; else the
/// entries are extracted in order until one cannot be read.
pub fn xray_extraction(bytes: Vec<u8>, xray_dir: &str, windows: bool) -> (r: (Vec<ExtractAction>, Option<String>))
    ensures
        match zip_read(bytes@) {
            Err(e) => r.0@.len() == 0 && opt_text(r.1) == Some("Failed to read Xray zip archive: "@ + e),
            Ok(es) => (actions_view(r.0@), opt_text(r.1)) == extraction_steps(es, xray_dir@, windows),
        },
{
    let mut a = match zip_open(bytes) {
        Ok(a) => a,
        Err(e) => {
            return (Vec::new(), Some(join("Failed to read Xray zip archive: ", e.as_str())));
        },
    };
    let ghost es = zip_entries(a);
    let mut out: Vec<ExtractAction> = Vec::new();
    let n = zip_len(&a);
    assert(es.take(0) =~= Seq::<EntryV>::empty());
    for i in 0..n
        invariant
            n == es.len(),
            zip_entries(a) == es,
            zip_read(bytes@) == Ok::<Seq<EntryV>, Seq<char>>(es),
            extraction_steps(es.take(i as int), xray_dir@, windows) == (actions_view(out@), None::<Seq<char>>),
    {
        proof {
            assert(es.take(i + 1).drop_last() =~= es.take(i as int));
            assert(es.take(i + 1).last() == es[i as int]);
        }
        let (name, enclosed) = match zip_entry_names(&mut a, i) {
            Ok(p) => p,
            Err(e) => {
                proof {
                    lemma_steps_stop(es, xray_dir@, windows, i + 1);
                }
                return (out, Some(e));
            },
        };
        let data = if enclosed.is_some() && !ends_with(name.as_str(), "/") {
            match zip_entry_data(&mut a, i) {
                Ok(d) => d,
                Err(e) => {
                    proof {
                        lemma_steps_stop(es, xray_dir@, windows, i + 1);
                    }
                    return (out, Some(e));
                },
            }
        } else {
            Vec::new()
        };
        match entry_action(name.as_str(), enclosed, data, xray_dir, windows) {
            Some(act) => {
                let ghost before = actions_view(out@);
                out.push(act);
                proof {
                    assert(actions_view(out@) =~= before.push(act@));
                }
            },
            None => {},
        }
    }
    proof {
        assert(es.take(n as int) =~= es);
    }
    (out, None)
}

/// Looking for the WinTun library from entry `i` on: the bytes of the first
/// entry that holds the build for `arch`, or any `wintun.dll`; the error of
/// an entry that cannot be read on the way; or, past the last entry, that
/// there is none.
pub open spec fn wintun_search(es: Seq<EntryV>, arch: Seq<char>, i: int) -> Result<Seq<u8>, Seq<char>>
    decreases es.len() - i,
{
    if i < 0 || i >= es.len() {
        Err("WinTun DLL not found in archive"@)
    } else {
        match es[i].0 {
            Err(m) => Err(m),
            Ok((name, _)) => if is_wintun_dll(name, arch) {
                es[i].1
            } else {
                wintun_search(es, arch, i + 1)
            },
        }
    }
}

/// The bytes of the WinTun library in the WinTun archive, for the target
/// architecture (as `std::env::consts::ARCH` names it). The archive is
/// opened before the architecture is looked at.
pub fn wintun_dll_from_archive(bytes: Vec<u8>, target_arch: &str) -> (r: Result<Vec<u8>, String>)
    ensures
        match zip_read(bytes@) {
            Err(e) => bytes_result(r) == Err::<Seq<u8>, Seq<char>>(e),
            Ok(es) => match wintun_arch_spec(target_arch@) {
                Err(e) => bytes_result(r) == Err::<Seq<u8>, Seq<char>>(e),
                Ok(arch) => bytes_result(r) == wintun_search(es, arch, 0),
            },
        },
{
    let mut a = match zip_open(bytes) {
        Ok(a) => a,
        Err(e) => {
            return Err(e);
        },
    };
    let arch = match wintun_arch(target_arch) {
        Ok(x) => x,
        Err(e) => {
            return Err(e);
        },
    };
    let ghost es = zip_entries(a);
    let n = zip_len(&a);
    let mut i: usize = 0;
    while i < n
        invariant
            i <= n,
            n == es.len(),
            zip_entries(a) == es,
            zip_read(bytes@) == Ok::<Seq<EntryV>, Seq<char>>(es),
            wintun_arch_spec(target_arch@) == Ok::<Seq<char>, Seq<char>>(arch@),
            wintun_search(es, arch@, 0) == wintun_search(es, arch@, i as int),
        decreases n - i,
    {
        let (name, _enclosed) = match zip_entry_names(&mut a, i) {
            Ok(p) => p,
            Err(e) => {
                return Err(e);
            },
        };
        if is_wintun_dll_entry(name.as_str(), arch.as_str()) {
            return zip_entry_data(&mut a, i);
        }
        i = i + 1;
    }
    Err(String::from_str("WinTun DLL not found in archive"))
}

} // verus!
