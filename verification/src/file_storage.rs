//! Where uploaded chat files live, and the public URLs they are served
//! under.

use vstd::prelude::*;
use vstd::string::{StrSliceExecFns, StringExecFns};

verus! {

/// Everything after the final `/` of a path (the whole path when it holds
/// no separator, and empty when it ends in one).
pub open spec fn spec_after_last_slash(p: Seq<char>) -> Seq<char>
    decreases p.len(),
{
    if p.len() == 0 {
        p
    } else if p.last() == '/' {
        Seq::empty()
    } else {
        spec_after_last_slash(p.drop_last()).push(p.last())
    }
}

/// The final component of a path, read the way the standard library's
/// `Path::file_name` reads it: trailing separators and trailing `.`
/// components are skipped, and there is no component at all (`None`) when
/// nothing remains or the path ends in a `..` component.
pub open spec fn spec_file_name(p: Seq<char>) -> Option<Seq<char>>
    decreases p.len(),
{
    if p.len() == 0 {
        None
    } else if p.last() == '/' {
        spec_file_name(p.drop_last())
    } else {
        let tail = spec_after_last_slash(p);
        if tail == seq!['.'] {
            spec_file_name(p.take(p.len() - 1))
        } else if tail == seq!['.', '.'] {
            None
        } else {
            Some(tail)
        }
    }
}

/// If nothing at or after `cut` is a separator, and a separator (if any)
/// sits just before `cut`, then the text after the last separator starts at
/// `cut`.
proof fn lemma_after_last_slash(p: Seq<char>, cut: int)
    requires
        0 <= cut <= p.len(),
        forall|j: int| cut <= j < p.len() ==> p[j] != '/',
        cut > 0 ==> p[cut - 1] == '/',
    ensures
        spec_after_last_slash(p) == p.subrange(cut, p.len() as int),
    decreases p.len(),
{
    if cut == p.len() {
        if p.len() == 0 {
            assert(spec_after_last_slash(p) =~= p.subrange(cut, p.len() as int));
        } else {
            assert(p.last() == '/');
            assert(spec_after_last_slash(p) =~= p.subrange(cut, p.len() as int));
        }
    } else {
        assert(p.last() != '/');
        lemma_after_last_slash(p.drop_last(), cut);
        assert(p.drop_last().subrange(cut, p.drop_last().len() as int).push(p.last()) =~= p.subrange(
            cut,
            p.len() as int,
        ));
    }
}

/// Storage of uploaded files under one base directory.
pub struct FileStorage {
    pub base_path: String,
}

impl FileStorage {
    /// Storage rooted at `base_path`.
    pub fn new(base_path: &str) -> (r: FileStorage)
        ensures
            r.base_path@ == base_path@,
    {
        FileStorage { base_path: base_path.to_owned() }
    }

    /// The public URL a stored file is served under: `/files/` followed by
    /// the path's final component. A path with no final component (empty,
    /// all separators, or ending in a `..` component) has no URL and is
    /// excluded.
    pub fn get_file_url(&self, file_path: &str) -> (r: String)
        requires
            spec_file_name(file_path@) is Some,
        ensures
            spec_file_name(file_path@) matches Some(name) && r@ == "/files/"@ + name,
    {
        let n = file_path.unicode_len();
        // Skip trailing separators and trailing `.` components.
        let mut end: usize = n;
        let mut trimming = true;
        proof {
            assert(file_path@.take(n as int) =~= file_path@);
        }
        while trimming
            invariant
                end <= n,
                n == file_path@.len(),
                spec_file_name(file_path@) == spec_file_name(file_path@.take(end as int)),
                !trimming ==> !(end > 0 && file_path@[end as int - 1] == '/') && !(end > 0
                    && file_path@[end as int - 1] == '.' && (end == 1 || file_path@[end as int
                    - 2] == '/')),
            decreases end + (if trimming {
                1int
            } else {
                0int
            }),
        {
            if end > 0 && file_path.get_char(end - 1) == '/' {
                proof {
                    let q = file_path@.take(end as int);
                    assert(q.last() == '/');
                    assert(q.drop_last() =~= file_path@.take(end as int - 1));
                }
                end = end - 1;
            } else if end > 0 && file_path.get_char(end - 1) == '.' && (end == 1
                || file_path.get_char(end - 2) == '/') {
                proof {
                    let q = file_path@.take(end as int);
                    assert(q.last() == '.');
                    lemma_after_last_slash(q, end as int - 1);
                    assert(spec_after_last_slash(q) =~= seq!['.']);
                    assert(q.take(q.len() - 1) =~= file_path@.take(end as int - 1));
                }
                end = end - 1;
            } else {
                trimming = false;
            }
        }
        proof {
            if end == 0 {
                assert(file_path@.take(0).len() == 0);
                assert(false);
            }
        }
        // The final component is everything after the last separator.
        let mut cut: usize = end;
        let mut scanning = true;
        while scanning && cut > 0
            invariant
                cut <= end,
                end <= n,
                n == file_path@.len(),
                forall|j: int| cut <= j < end ==> file_path@[j] != '/',
                !scanning ==> cut > 0 && file_path@[cut - 1] == '/',
            decreases cut + (if scanning {
                1int
            } else {
                0int
            }),
        {
            if file_path.get_char(cut - 1) == '/' {
                scanning = false;
            } else {
                cut = cut - 1;
            }
        }
        let name = file_path.substring_char(cut, end);
        let mut r = "/files/".to_owned();
        r.append(name);
        proof {
            let q = file_path@.take(end as int);
            assert(end > 0 && q.last() != '/');
            lemma_after_last_slash(q, cut as int);
            assert(q.subrange(cut as int, q.len() as int) =~= file_path@.subrange(
                cut as int,
                end as int,
            ));
            let tail = spec_after_last_slash(q);
            assert(tail == name@);
            if tail == seq!['.'] {
                // The component would be a lone dot, which the trim loop
                // would have taken off.
                assert(cut == end - 1);
                assert(tail == file_path@.subrange(cut as int, end as int));
                assert(tail[0] == '.');
                assert(file_path@[cut as int] == '.');
                assert(false);
            }
            if tail == seq!['.', '.'] {
                assert(spec_file_name(q) is None);
                assert(false);
            }
            assert(spec_file_name(q) == Some(tail));
        }
        r
    }
}

} // verus!
