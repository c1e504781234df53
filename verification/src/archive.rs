//! Where the entries of an SDK archive may be unpacked.
use vstd::prelude::*;
use vstd::string::*;
use crate::paths::{separator_of, Platform};
use crate::text::{chars_of, push_char, string_of_range};

verus! {

/// Whether `c` separates the parts of an archive entry name: `/` or `\`.
pub open spec fn is_entry_separator(c: char) -> bool {
    c == '/' || c == '\\'
}

/// The parts of an archive entry name, split at every `/` and `\`, empty parts included, as
/// `str::split` gives them: always at least one.
pub open spec fn spec_entry_parts(name: Seq<char>) -> Seq<Seq<char>>
    decreases name.len(),
{
    if name.len() == 0 {
        seq![Seq::empty()]
    } else {
        let parts = spec_entry_parts(name.drop_last());
        if is_entry_separator(name.last()) {
            parts.push(Seq::empty())
        } else {
            parts.update(parts.len() - 1, parts.last().push(name.last()))
        }
    }
}

/// Whether a part names the directory itself or its parent: `.` or `..`.
pub open spec fn is_dot_part(part: Seq<char>) -> bool {
    part == seq!['.'] || part == seq!['.', '.']
}

/// Whether any of `parts` is `.` or `..`.
pub open spec fn any_dot_part(parts: Seq<Seq<char>>) -> bool
    decreases parts.len(),
{
    if parts.len() == 0 {
        false
    } else {
        any_dot_part(parts.drop_last()) || is_dot_part(parts.last())
    }
}

/// The non-empty parts of `parts`, each after the separator `sep`.
pub open spec fn spec_kept_path(parts: Seq<Seq<char>>, sep: char) -> Seq<char>
    decreases parts.len(),
{
    if parts.len() == 0 {
        Seq::empty()
    } else {
        spec_kept_path(parts.drop_last(), sep) + if parts.last().len() > 0 {
            seq![sep] + parts.last()
        } else {
            Seq::empty()
        }
    }
}

/// Where the archive entry `name` is unpacked below `target_dir`: nothing when a part of the
/// name is `.` or `..`, or when it has no non-empty part; else the directory followed by each
/// non-empty part after the platform's separator.
pub open spec fn spec_safe_entry_path(target_dir: Seq<char>, name: Seq<char>, platform: Platform) -> Option<Seq<char>> {
    let parts = spec_entry_parts(name);
    let kept = spec_kept_path(parts, separator_of(platform));
    if any_dot_part(parts) || kept.len() == 0 {
        None
    } else {
        Some(target_dir + kept)
    }
}

fn is_dot_range(v: &Vec<char>, from: usize, to: usize) -> (b: bool)
    requires
        from <= to <= v@.len(),
    ensures
        b == is_dot_part(v@.subrange(from as int, to as int)),
{
    let ghost part = v@.subrange(from as int, to as int);
    let ghost one: Seq<char> = seq!['.'];
    let ghost two: Seq<char> = seq!['.', '.'];
    assert(one.len() == 1 && one[0] == '.');
    assert(two.len() == 2 && two[0] == '.' && two[1] == '.');
    if to - from == 1 {
        let b = v[from] == '.';
        assert(b ==> part =~= one);
        assert(part[0] == v@[from as int]);
        b
    } else if to - from == 2 {
        let b = v[from] == '.' && v[from + 1] == '.';
        assert(b ==> part =~= two);
        assert(part[0] == v@[from as int] && part[1] == v@[from + 1]);
        b
    } else {
        false
    }
}

/// Where the archive entry `name` is unpacked below `target_dir`, or nothing when the entry
/// would leave that directory or names no file.
///
/// The name is split at every `/` and `\`. A part that is `.` or `..` rejects the entry;
/// the non-empty parts are joined to the directory with the platform's separator.
pub fn safe_entry_path(target_dir: &str, name: &str, platform: Platform) -> (r: Option<String>)
    ensures
        opt_view(r) == spec_safe_entry_path(target_dir@, name@, platform),
{
    let v = chars_of(name);
    let sep = platform.separator();
    let mut path = target_dir.to_owned();
    let mut dotted = false;
    let mut start: usize = 0;
    let mut i: usize = 0;
    assert(v@.subrange(0, 0) =~= Seq::<char>::empty());
    while i < v.len()
        invariant
            v@ == name@,
            sep == separator_of(platform),
            start <= i <= v@.len(),
            spec_entry_parts(v@.subrange(0, i as int)).len() >= 1,
            spec_entry_parts(v@.subrange(0, i as int)).last() == v@.subrange(start as int, i as int),
            dotted == any_dot_part(spec_entry_parts(v@.subrange(0, i as int)).drop_last()),
            path@ == target_dir@ + spec_kept_path(spec_entry_parts(v@.subrange(0, i as int)).drop_last(), sep),
        decreases v@.len() - i,
    {
        let ghost prefix = v@.subrange(0, i as int);
        let ghost parts = spec_entry_parts(prefix);
        assert(v@.subrange(0, i + 1).drop_last() =~= prefix);
        assert(v@.subrange(0, i + 1).last() == v@[i as int]);
        if v[i] == '/' || v[i] == '\\' {
            let ghost next = parts.push(Seq::empty());
            assert(spec_entry_parts(v@.subrange(0, i + 1)) == next);
            assert(next.drop_last() =~= parts);
            if is_dot_range(&v, start, i) {
                dotted = true;
            }
            if i > start {
                push_char(&mut path, sep);
                let part = string_of_range(&v, start, i);
                path.append(part.as_str());
            }
            assert(path@ =~= target_dir@ + spec_kept_path(next.drop_last(), sep));
            start = i + 1;
            assert(next.last() =~= v@.subrange(start as int, (i + 1) as int));
        } else {
            let ghost next = parts.update(parts.len() - 1, parts.last().push(v@[i as int]));
            assert(spec_entry_parts(v@.subrange(0, i + 1)) == next);
            assert(next.drop_last() =~= parts.drop_last());
            assert(next.last() =~= v@.subrange(start as int, (i + 1) as int));
        }
        i += 1;
    }
    let ghost parts = spec_entry_parts(v@.subrange(0, i as int));
    assert(v@.subrange(0, i as int) =~= name@);
    if is_dot_range(&v, start, i) {
        dotted = true;
    }
    let dir_len = target_dir.unicode_len();
    if i > start {
        push_char(&mut path, sep);
        let part = string_of_range(&v, start, i);
        path.append(part.as_str());
    }
    assert(path@ =~= target_dir@ + spec_kept_path(parts, sep));
    assert(dotted == any_dot_part(parts));
    if dotted || path.unicode_len() == dir_len {
        None
    } else {
        Some(path)
    }
}

/// The text of an optional string.
pub open spec fn opt_view(s: Option<String>) -> Option<Seq<char>> {
    match s {
        Some(t) => Some(t@),
        None => None,
    }
}

proof fn lemma_kept_path_shape(parts: Seq<Seq<char>>, sep: char)
    ensures
        spec_kept_path(parts, sep).len() > 0 ==> spec_kept_path(parts, sep)[0] == sep,
    decreases parts.len(),
{
    if parts.len() > 0 {
        lemma_kept_path_shape(parts.drop_last(), sep);
        let rest = spec_kept_path(parts.drop_last(), sep);
        if rest.len() == 0 && parts.last().len() > 0 {
            assert(spec_kept_path(parts, sep) =~= rest + (seq![sep] + parts.last()));
        }
    }
}

/// An archive entry is only ever unpacked strictly below the target directory: the path
/// it is given is the directory, the platform's separator and at least one more character,
/// and no part of its name is `.` or `..`.
pub proof fn lemma_entries_stay_inside(target_dir: Seq<char>, name: Seq<char>, platform: Platform)
    ensures
        spec_safe_entry_path(target_dir, name, platform) matches Some(path) ==> {
            &&& path.len() > target_dir.len() + 1
            &&& path.subrange(0, target_dir.len() as int) == target_dir
            &&& path[target_dir.len() as int] == separator_of(platform)
            &&& !any_dot_part(spec_entry_parts(name))
        },
{
    let parts = spec_entry_parts(name);
    let sep = separator_of(platform);
    let kept = spec_kept_path(parts, sep);
    lemma_kept_path_shape(parts, sep);
    lemma_kept_path_length(parts, sep);
    if let Some(path) = spec_safe_entry_path(target_dir, name, platform) {
        assert(path == target_dir + kept);
        assert(path.subrange(0, target_dir.len() as int) =~= target_dir);
    }
}

proof fn lemma_kept_path_length(parts: Seq<Seq<char>>, sep: char)
    ensures
        spec_kept_path(parts, sep).len() != 1,
    decreases parts.len(),
{
    if parts.len() > 0 {
        lemma_kept_path_length(parts.drop_last(), sep);
    }
}

} // verus!
