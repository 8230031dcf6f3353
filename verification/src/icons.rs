//! Account icons: which icon name is fetched, and the file it is cached in.
use vstd::prelude::*;

use crate::text::{chars_of, string_of_chars, trim, trim_ws};

verus! {

/// Where the last `/`-separated segment of `p` starts.
pub open spec fn segment_start(p: Seq<char>) -> nat
    decreases p.len(),
{
    if p.len() == 0 {
        0
    } else if p.last() == '/' {
        p.len()
    } else {
        segment_start(p.drop_last())
    }
}

pub open spec fn dot() -> Seq<char> {
    seq!['.']
}

pub open spec fn dot_dot() -> Seq<char> {
    seq!['.', '.']
}

/// The final component of the Unix path `p`, as `Path::file_name` finds it:
/// trailing slashes and `.` components are skipped; a path that ends in `..`,
/// or has no component left, has none.
pub open spec fn file_name_of(p: Seq<char>) -> Option<Seq<char>>
    decreases p.len(),
{
    if p.len() == 0 {
        None
    } else if p.last() == '/' {
        file_name_of(p.drop_last())
    } else {
        let k = segment_start(p);
        let seg = p.subrange(k as int, p.len() as int);
        if k >= p.len() {
            None
        } else if seg == dot() {
            file_name_of(p.subrange(0, k as int))
        } else if seg == dot_dot() {
            None
        } else {
            Some(seg)
        }
    }
}

pub open spec fn fallback_icon_name() -> Seq<char> {
    seq!['i', 'c', 'o', 'n']
}

/// The name of the cache file for an icon: the final component of the icon
/// name taken as a path, or `icon` where it has none.
pub open spec fn spec_safe_icon_filename(icon_name: Seq<char>) -> Seq<char> {
    match file_name_of(icon_name) {
        Some(name) => name,
        None => fallback_icon_name(),
    }
}

proof fn lemma_segment_start(p: Seq<char>)
    ensures
        segment_start(p) <= p.len(),
        forall|i: int| segment_start(p) <= i < p.len() ==> p[i] != '/',
        segment_start(p) > 0 ==> p[segment_start(p) - 1] == '/',
    decreases p.len(),
{
    if p.len() > 0 && p.last() != '/' {
        lemma_segment_start(p.drop_last());
        assert forall|i: int| segment_start(p) <= i < p.len() implies p[i] != '/' by {
            if i < p.len() - 1 {
                assert(p[i] == p.drop_last()[i]);
            }
        }
    }
}

fn file_name(v: &[char]) -> (r: Option<String>)
    ensures
        match r {
            Some(s) => file_name_of(v@) == Some(s@),
            None => file_name_of(v@) is None,
        },
{
    let mut end = v.len();
    assert(v@.subrange(0, end as int) =~= v@);
    loop
        invariant
            end <= v@.len(),
            file_name_of(v@) == file_name_of(v@.subrange(0, end as int)),
        decreases end,
    {
        let ghost p = v@.subrange(0, end as int);
        if end == 0 {
            return None;
        }
        if v[end - 1] == '/' {
            assert(p.drop_last() =~= v@.subrange(0, end - 1));
            end -= 1;
        } else {
            let mut start = end;
            while start > 0 && v[start - 1] != '/'
                invariant
                    start <= end <= v@.len(),
                    p == v@.subrange(0, end as int),
                    segment_start(p) == segment_start(v@.subrange(0, start as int)),
                decreases start,
            {
                assert(v@.subrange(0, start as int).drop_last() =~= v@.subrange(0, start - 1));
                start -= 1;
            }
            proof {
                lemma_segment_start(p);
            }
            let ghost seg = p.subrange(start as int, end as int);
            assert(seg =~= v@.subrange(start as int, end as int));
            let len = end - start;
            if len == 1 && v[start] == '.' {
                assert(seg =~= dot());
                assert(p.subrange(0, start as int) =~= v@.subrange(0, start as int));
                end = start;
            } else if len == 2 && v[start] == '.' && v[start + 1] == '.' {
                assert(seg =~= dot_dot());
                return None;
            } else {
                proof {
                    if seg == dot() {
                        assert(seg[0] == '.');
                    }
                    if seg == dot_dot() {
                        assert(seg[0] == '.' && seg[1] == '.');
                    }
                }
                return Some(string_of_chars(v, start, end));
            }
        }
    }
}

/// The name of the file an icon is cached in; see `spec_safe_icon_filename`.
pub fn safe_icon_filename(icon_name: &str) -> (r: String)
    ensures
        r@ == spec_safe_icon_filename(icon_name@),
{
    let v = chars_of(icon_name);
    match file_name(v.as_slice()) {
        Some(name) => name,
        None => {
            let mut s = String::new();
            crate::text::push_char(&mut s, 'i');
            crate::text::push_char(&mut s, 'c');
            crate::text::push_char(&mut s, 'o');
            crate::text::push_char(&mut s, 'n');
            assert(s@ =~= fallback_icon_name());
            s
        },
    }
}

/// The icon name that is looked up for an account: its icon, trimmed, unless
/// it has none or only white space.
pub open spec fn spec_icon_to_load(icon: Option<Seq<char>>) -> Option<Seq<char>> {
    match icon {
        Some(name) => if trim_ws(name).len() == 0 {
            None
        } else {
            Some(trim_ws(name))
        },
        None => None,
    }
}

/// The icon to fetch for an account; see `spec_icon_to_load`.
pub fn icon_to_load(icon: &Option<String>) -> (r: Option<String>)
    ensures
        (match r {
            Some(s) => Some(s@),
            None => None,
        }) == spec_icon_to_load(
            match icon {
                Some(s) => Some(s@),
                None => None,
            },
        ),
{
    match icon {
        None => None,
        Some(name) => {
            let t = trim(name.as_str());
            if t.is_empty() {
                None
            } else {
                Some(t.to_owned())
            }
        },
    }
}

/// Where an icon that is already cached comes from.
pub enum CachedIcon {
    /// The cache file's bytes are shown.
    Show(Vec<u8>),
    /// The icon is downloaded from the server.
    Download,
}

/// The cache is used when the cache file could be read and is not empty;
/// otherwise the icon is downloaded. `cached` is the file's content, if it
/// could be read.
pub fn icon_from_cache(cached: Option<Vec<u8>>) -> (r: CachedIcon)
    ensures
        (match cached {
            Some(bytes) => if bytes@.len() > 0 {
                r matches CachedIcon::Show(shown) && shown@ == bytes@
            } else {
                r is Download
            },
            None => r is Download,
        }),
{
    match cached {
        Some(bytes) => if bytes.len() > 0 {
            CachedIcon::Show(bytes)
        } else {
            CachedIcon::Download
        },
        None => CachedIcon::Download,
    }
}

/// What is done with a downloaded icon.
pub enum DownloadedIcon {
    /// The bytes are written to the cache and shown.
    CacheAndShow(Vec<u8>),
    /// The fallback icon is shown.
    Fallback,
}

/// A download that succeeded with a non-empty body is cached and shown; a
/// failed or empty one leaves the fallback icon. `downloaded` is the body,
/// if the request succeeded.
pub fn icon_from_download(downloaded: Option<Vec<u8>>) -> (r: DownloadedIcon)
    ensures
        (match downloaded {
            Some(bytes) => if bytes@.len() > 0 {
                r matches DownloadedIcon::CacheAndShow(kept) && kept@ == bytes@
            } else {
                r is Fallback
            },
            None => r is Fallback,
        }),
{
    match downloaded {
        Some(bytes) => if bytes.len() > 0 {
            DownloadedIcon::CacheAndShow(bytes)
        } else {
            DownloadedIcon::Fallback
        },
        None => DownloadedIcon::Fallback,
    }
}

proof fn lemma_file_name_is_plain(p: Seq<char>)
    ensures
        file_name_of(p) matches Some(name) ==> {
            &&& name.len() > 0
            &&& forall|i: int| 0 <= i < name.len() ==> name[i] != '/'
            &&& name != dot()
            &&& name != dot_dot()
        },
    decreases p.len(),
{
    if p.len() > 0 {
        if p.last() == '/' {
            lemma_file_name_is_plain(p.drop_last());
        } else {
            let k = segment_start(p);
            lemma_segment_start(p);
            if k < p.len() && p.subrange(k as int, p.len() as int) == dot() {
                lemma_file_name_is_plain(p.subrange(0, k as int));
            }
        }
    }
}

/// Whatever the server calls an icon, its cache file is a plain name inside
/// the cache directory: not empty, without `/`, and neither `.` nor `..`.
pub proof fn law_cache_file_stays_in_cache_dir(icon_name: Seq<char>)
    ensures
        spec_safe_icon_filename(icon_name).len() > 0,
        forall|i: int|
            0 <= i < spec_safe_icon_filename(icon_name).len() ==> spec_safe_icon_filename(
                icon_name,
            )[i] != '/',
        spec_safe_icon_filename(icon_name) != dot(),
        spec_safe_icon_filename(icon_name) != dot_dot(),
{
    lemma_file_name_is_plain(icon_name);
    if file_name_of(icon_name) is None {
        assert(fallback_icon_name()[0] == 'i');
        assert(fallback_icon_name().len() != dot().len());
        assert(fallback_icon_name().len() != dot_dot().len());
        assert forall|i: int| 0 <= i < fallback_icon_name().len() implies fallback_icon_name()[i] != '/' by {
        }
    }
}

} // verus!
