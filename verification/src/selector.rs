use vstd::prelude::*;

verus! {

/// Byte value of '.', which starts an extension inside a file name.
pub const DOT: u8 = 46;

/// Byte value of '/', which separates path components.
pub const SLASH: u8 = 47;

/// The extension of the file that a path names: the bytes after the last
/// '.' of the name part (the part after the last '/'), provided that dot is
/// not the first byte of the name. `None` when the name has no such dot.
pub open spec fn ext_of(p: Seq<u8>) -> Option<Seq<u8>>
    decreases p.len(),
{
    if p.len() == 0 {
        None
    } else if p.last() == DOT {
        if p.len() >= 2 && p[p.len() - 2] != SLASH {
            Some(Seq::empty())
        } else {
            None
        }
    } else if p.last() == SLASH {
        None
    } else {
        match ext_of(p.drop_last()) {
            Some(e) => Some(e.push(p.last())),
            None => None,
        }
    }
}

/// True when `s` is a literal suffix of `p`.
pub open spec fn has_suffix(p: Seq<u8>, s: Seq<u8>) -> bool {
    s.len() <= p.len() && p.skip(p.len() - s.len()) == s
}

/// The suffix test on whole paths, as a value for `Seq::filter`.
pub open spec fn suffix_pred(s: Seq<u8>) -> spec_fn(Seq<u8>) -> bool {
    |p: Seq<u8>| has_suffix(p, s)
}

/// True when a single file is selected: the filter is empty, or it equals
/// the file's extension.
pub open spec fn file_selected(p: Seq<u8>, ext: Seq<u8>) -> bool {
    ext.len() == 0 || ext_of(p) == Some(ext)
}

/// What file mode yields: the path itself when selected, nothing otherwise.
pub open spec fn file_selection(p: Seq<u8>, ext: Seq<u8>) -> Seq<Seq<u8>> {
    if file_selected(p, ext) {
        seq![p]
    } else {
        Seq::empty()
    }
}

/// What directory mode yields: the entries whose whole path ends with the
/// literal filter, in discovery order.
pub open spec fn dir_selection(entries: Seq<Seq<u8>>, ext: Seq<u8>) -> Seq<Seq<u8>> {
    entries.filter(suffix_pred(ext))
}

/// How the source path appeared on the file system: a regular file, a
/// directory with its immediate entries (each as a whole path, in discovery
/// order), a directory that could not be listed, or nothing at all.
pub enum Listing {
    File,
    Directory(Vec<Vec<u8>>),
    Unreadable,
    Missing,
}

/// Selection failed because the source directory could not be listed.
#[derive(Debug, Clone, Copy, PartialEq, Eq)]
pub enum SelectError {
    PathUnreadable,
}

/// A fresh copy of a byte path.
fn copy_bytes(src: &Vec<u8>) -> (r: Vec<u8>)
    ensures
        r@ == src@,
{
    let mut out: Vec<u8> = Vec::new();
    let mut i: usize = 0;
    while i < src.len()
        invariant
            i <= src@.len(),
            out@ == src@.take(i as int),
        decreases src@.len() - i,
    {
        out.push(src[i]);
        proof {
            assert(src@.take(i as int).push(src@[i as int]) =~= src@.take(i + 1));
        }
        i += 1;
    }
    proof {
        assert(src@.take(src@.len() as int) =~= src@);
    }
    out
}

/// Byte-wise equality of two paths.
fn bytes_eq(a: &Vec<u8>, b: &Vec<u8>) -> (r: bool)
    ensures
        r == (a@ == b@),
{
    if a.len() != b.len() {
        return false;
    }
    let mut i: usize = 0;
    while i < a.len()
        invariant
            a@.len() == b@.len(),
            i <= a@.len(),
            forall|j: int| 0 <= j < i ==> a@[j] == b@[j],
        decreases a@.len() - i,
    {
        if a[i] != b[i] {
            return false;
        }
        i += 1;
    }
    proof {
        assert(a@ =~= b@);
    }
    true
}

/// The extension of `path@.take(n)`, built while scanning backwards.
fn ext_from(path: &Vec<u8>, n: usize) -> (r: Option<Vec<u8>>)
    requires
        n <= path@.len(),
    ensures
        match r {
            Some(e) => ext_of(path@.take(n as int)) == Some(e@),
            None => ext_of(path@.take(n as int)) is None,
        },
    decreases n,
{
    if n == 0 {
        proof {
            assert(path@.take(0) =~= Seq::<u8>::empty());
        }
        None
    } else {
        let c = path[n - 1];
        proof {
            assert(path@.take(n as int).last() == c);
            assert(path@.take(n as int).drop_last() =~= path@.take(n - 1));
        }
        if c == DOT {
            if n >= 2 && path[n - 2] != SLASH {
                let e: Vec<u8> = Vec::new();
                proof {
                    assert(path@.take(n as int)[n - 2] == path@[n - 2]);
                }
                Some(e)
            } else {
                None
            }
        } else if c == SLASH {
            None
        } else {
            match ext_from(path, n - 1) {
                Some(mut e) => {
                    e.push(c);
                    Some(e)
                }
                None => None,
            }
        }
    }
}

/// The extension of the file that `path` names, if any.
pub fn extension_of(path: &Vec<u8>) -> (r: Option<Vec<u8>>)
    ensures
        match r {
            Some(e) => ext_of(path@) == Some(e@),
            None => ext_of(path@) is None,
        },
{
    let r = ext_from(path, path.len());
    proof {
        assert(path@.take(path@.len() as int) =~= path@);
    }
    r
}

/// Whether a single file is selected: empty filter, or filter equal to the
/// file's extension.
pub fn file_matches(path: &Vec<u8>, ext: &Vec<u8>) -> (r: bool)
    ensures
        r == file_selected(path@, ext@),
{
    if ext.len() == 0 {
        true
    } else {
        match extension_of(path) {
            Some(e) => bytes_eq(&e, ext),
            None => false,
        }
    }
}

/// Whether the whole path ends with the literal filter bytes.
pub fn suffix_matches(path: &Vec<u8>, ext: &Vec<u8>) -> (r: bool)
    ensures
        r == has_suffix(path@, ext@),
{
    let n = path.len();
    let m = ext.len();
    if m > n {
        return false;
    }
    let mut i: usize = 0;
    while i < m
        invariant
            m <= n,
            n == path@.len(),
            m == ext@.len(),
            i <= m,
            forall|j: int| 0 <= j < i ==> path@[n - m + j] == ext@[j],
        decreases m - i,
    {
        if path[n - m + i] != ext[i] {
            proof {
                assert(!has_suffix(path@, ext@)) by {
                    if has_suffix(path@, ext@) {
                        assert(path@.skip(n - m)[i as int] == ext@[i as int]);
                    }
                }
            }
            return false;
        }
        i += 1;
    }
    proof {
        assert(path@.skip(n - m) =~= ext@);
    }
    true
}

/// The entries whose whole path ends with `ext`, in their given order.
pub fn filter_by_suffix(entries: &Vec<Vec<u8>>, ext: &Vec<u8>) -> (r: Vec<Vec<u8>>)
    ensures
        r.deep_view() == dir_selection(entries.deep_view(), ext@),
{
    let mut out: Vec<Vec<u8>> = Vec::new();
    proof {
        assert(entries.deep_view().take(0) =~= Seq::<Seq<u8>>::empty());
        assert(Seq::<Seq<u8>>::empty().filter(suffix_pred(ext@)) =~= Seq::<Seq<u8>>::empty())
            by {
            reveal_with_fuel(Seq::<_>::filter, 1);
        }
        assert(out.deep_view() =~= Seq::<Seq<u8>>::empty());
    }
    let mut i: usize = 0;
    while i < entries.len()
        invariant
            i <= entries@.len(),
            out.deep_view() == entries.deep_view().take(i as int).filter(suffix_pred(ext@)),
        decreases entries@.len() - i,
    {
        let keep = suffix_matches(&entries[i], ext);
        proof {
            broadcast use Seq::lemma_filter_push;

            assert(entries@[i as int].deep_view() =~= entries@[i as int]@);
            assert(entries.deep_view().take(i + 1) =~= entries.deep_view().take(
                i as int,
            ).push(entries@[i as int].deep_view()));
        }
        if keep {
            let ghost prev = out.deep_view();
            out.push(copy_bytes(&entries[i]));
            proof {
                assert(out.deep_view() =~= prev.push(entries@[i as int].deep_view()));
            }
        }
        i += 1;
    }
    proof {
        assert(entries.deep_view().take(entries@.len() as int) =~= entries.deep_view());
    }
    out
}

/// The ordered list of whole file paths to upload, from a source path and
/// what the file system showed there. A regular file is selected when the
/// filter is empty or equals its extension; a directory contributes exactly
/// the entries whose whole path ends with the literal filter, in discovery
/// order; a directory that could not be listed is the one failure; a path
/// that named nothing yields no files.
pub fn select(path: &Vec<u8>, listing: &Listing, ext: &Vec<u8>) -> (r: Result<
    Vec<Vec<u8>>,
    SelectError,
>)
    ensures
        listing is File ==> r is Ok && r->Ok_0.deep_view() == file_selection(path@, ext@),
        listing matches Listing::Directory(es) ==> r is Ok && r->Ok_0.deep_view()
            == dir_selection(es.deep_view(), ext@),
        listing is Unreadable ==> r is Err && r->Err_0 == SelectError::PathUnreadable,
        listing is Missing ==> r is Ok && r->Ok_0.deep_view() == Seq::<Seq<u8>>::empty(),
{
    match listing {
        Listing::File => {
            let mut out: Vec<Vec<u8>> = Vec::new();
            proof {
                assert(out.deep_view() =~= Seq::<Seq<u8>>::empty());
            }
            if file_matches(path, ext) {
                out.push(copy_bytes(path));
                proof {
                    assert(out@[0].deep_view() =~= out@[0]@);
                    assert(out.deep_view() =~= seq![path@]);
                }
            }
            Ok(out)
        }
        Listing::Directory(entries) => Ok(filter_by_suffix(entries, ext)),
        Listing::Unreadable => Err(SelectError::PathUnreadable),
        Listing::Missing => {
            let out: Vec<Vec<u8>> = Vec::new();
            proof {
                assert(out.deep_view() =~= Seq::<Seq<u8>>::empty());
            }
            Ok(out)
        }
    }
}

} // verus!
