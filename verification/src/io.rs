//! Directory-tree traversal and the filter that selects the files eligible
//! for the quote post-pass: exactly those whose final extension is `glif` or
//! `plist`.

use vstd::prelude::*;
use vstd::string::*;
use crate::utils::{extension_of, file_name_part, rfind_char, str_eq};

verus! {

/// A path is eligible when the extension of its file name is exactly `glif`
/// or exactly `plist` — a true extension match, never a suffix-substring one.
pub open spec fn is_plist_or_glif(p: Seq<char>) -> bool {
    extension_of(file_name_part(p)) == "glif"@ || extension_of(file_name_part(p)) == "plist"@
}

/// Whether `filepath` carries a `glif` or `plist` file extension.
pub fn is_plist_or_glif_filepath(filepath: &str) -> (r: bool)
    ensures
        r == is_plist_or_glif(filepath@),
{
    let n: usize = filepath.unicode_len();
    let slash = rfind_char(filepath, '/');
    let fstart: usize = match slash {
        Some(i) => i + 1,
        None => 0,
    };
    let fname = filepath.substring_char(fstart, n);
    proof {
        assert(fname@ =~= file_name_part(filepath@));
    }
    let flen: usize = fname.unicode_len();
    let dot = rfind_char(fname, '.');
    let ext: &str = if let Some(i) = dot {
        if i > 0 {
            fname.substring_char(i + 1, flen)
        } else {
            fname.substring_char(0, 0)
        }
    } else {
        fname.substring_char(0, 0)
    };
    proof {
        assert(ext@ =~= extension_of(fname@));
    }
    str_eq(ext, "glif") || str_eq(ext, "plist")
}

/// Keeps exactly the paths whose extension is `glif` or `plist`, in order.
#[verifier::loop_isolation(false)]
pub fn filter_plist_and_glif(filepaths: &Vec<String>) -> (r: Vec<String>)
    ensures
        r.deep_view() == filepaths.deep_view().filter(|p: Seq<char>| is_plist_or_glif(p)),
{
    let ghost pred = |p: Seq<char>| is_plist_or_glif(p);
    let mut out: Vec<String> = Vec::new();
    let mut i: usize = 0;
    proof {
        assert(filepaths.deep_view().subrange(0, 0) =~= Seq::<Seq<char>>::empty());
        reveal(Seq::filter);
    }
    while i < filepaths.len()
        invariant
            i <= filepaths@.len(),
            filepaths.deep_view().len() == filepaths@.len(),
            forall|j: int|
                0 <= j < filepaths@.len() ==> filepaths.deep_view()[j] == filepaths@[j]@,
            out.deep_view() == filepaths.deep_view().subrange(0, i as int).filter(pred),
        decreases filepaths@.len() - i,
    {
        let ghost prefix = filepaths.deep_view().subrange(0, i as int);
        let ghost prefix_ext = filepaths.deep_view().subrange(0, i + 1);
        proof {
            reveal(Seq::filter);
            assert(prefix_ext.drop_last() =~= prefix);
            assert(prefix_ext.last() == filepaths@[i as int]@);
        }
        let ghost out_before = out.deep_view();
        if is_plist_or_glif_filepath(filepaths[i].as_str()) {
            out.push(filepaths[i].clone());
            proof {
                assert(out.deep_view() =~= out_before.push(filepaths@[i as int]@));
                assert(out.deep_view() =~= prefix_ext.filter(pred));
            }
        } else {
            proof {
                assert(out.deep_view() =~= prefix_ext.filter(pred));
            }
        }
        i = i + 1;
    }
    proof {
        assert(filepaths.deep_view().subrange(0, filepaths@.len() as int) =~= filepaths
            .deep_view());
    }
    out
}

/// Every entry found under `root` on disk, as path strings. Traversal order
/// is unspecified, and entries that cannot be read are silently skipped, so
/// nothing is promised of the result.
///
/// Relies on walkdir::WalkDir: an exhaustive walk of the subtree rooted at
/// the given path, yielding one entry per file or directory reached.
#[verifier::external_body]
fn walk_dir_entries(root: &str) -> Vec<String> {
    walkdir::WalkDir::new(root)
        .into_iter()
        .filter_map(|entry| entry.ok())
        .map(|entry| entry.path().to_string_lossy().into_owned())
        .collect()
}

/// Walks the tree under `ufopath` and returns the files eligible for the
/// quote post-pass: every returned path has a true `glif` or `plist`
/// extension. Which paths come back depends on the disk at the time of the
/// walk; their order is unspecified.
pub fn walk_dir_for_plist_and_glif(ufopath: &str) -> (r: Vec<String>)
    ensures
        forall|i: int| 0 <= i < r@.len() ==> is_plist_or_glif(#[trigger] r@[i]@),
{
    let entries = walk_dir_entries(ufopath);
    let filtered = filter_plist_and_glif(&entries);
    proof {
        let pred = |p: Seq<char>| is_plist_or_glif(p);
        let fv = entries.deep_view().filter(pred);
        assert forall|i: int| 0 <= i < filtered@.len() implies is_plist_or_glif(
            #[trigger] filtered@[i]@,
        ) by {
            entries.deep_view().lemma_filter_pred(pred, i);
            assert(filtered@[i]@ == filtered.deep_view()[i]);
        }
    }
    filtered
}

} // verus!
