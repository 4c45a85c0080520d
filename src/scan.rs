//! Which directory entries are playable audio files.

use vstd::prelude::*;
use vstd::string::StrSliceExecFns;

verus! {

/// One entry met while walking the audio directory: whether it is a regular
/// file, and its file name (the last component of its path).
pub struct ScanEntry {
    pub is_file: bool,
    pub file_name: String,
}

/// Index of the last `'.'` in `s`, or -1 when there is none.
pub open spec fn last_dot(s: Seq<char>) -> int
    decreases s.len(),
{
    if s.len() == 0 {
        -1
    } else if s.last() == '.' {
        s.len() - 1
    } else {
        last_dot(s.drop_last())
    }
}

/// The extension of a file name: the text after its last dot. A name without
/// a dot, a name whose only dot leads it (`.profile`), and `..` have none.
pub open spec fn extension_spec(name: Seq<char>) -> Option<Seq<char>> {
    if name == seq!['.', '.'] || last_dot(name) <= 0 {
        None
    } else {
        Some(name.subrange(last_dot(name) + 1, name.len() as int))
    }
}

/// The audio container formats that are played: `ogg`, `wav` and `mp3`,
/// compared exactly (case matters).
pub open spec fn is_audio_extension_spec(ext: Seq<char>) -> bool {
    ext == seq!['o', 'g', 'g'] || ext == seq!['w', 'a', 'v'] || ext == seq!['m', 'p', '3']
}

/// An entry is eligible when it is a regular file with an audio extension.
pub open spec fn is_eligible_spec(e: ScanEntry) -> bool {
    e.is_file && match extension_spec(e.file_name@) {
        Some(ext) => is_audio_extension_spec(ext),
        None => false,
    }
}

proof fn lemma_last_dot_bounds(s: Seq<char>)
    ensures
        -1 <= last_dot(s) < s.len(),
        last_dot(s) >= 0 ==> s[last_dot(s)] == '.',
        forall|j: int| last_dot(s) < j < s.len() ==> s[j] != '.',
    decreases s.len(),
{
    if s.len() > 0 && s.last() != '.' {
        let t = s.drop_last();
        lemma_last_dot_bounds(t);
        assert forall|j: int| last_dot(s) < j < s.len() implies s[j] != '.' by {
            if j < t.len() {
                assert(s[j] == t[j]);
            }
        }
    }
}

/// The extension of `name`, as `extension_spec` defines it.
pub fn extension(name: &str) -> (r: Option<String>)
    ensures
        match r {
            Some(e) => extension_spec(name@) == Some(e@),
            None => extension_spec(name@).is_none(),
        },
{
    let len = name.unicode_len();
    let mut i: usize = len;
    while i > 0
        invariant
            i <= len == name@.len(),
            forall|j: int| i <= j < len ==> name@[j] != '.',
        ensures
            i <= len,
            forall|j: int| i <= j < len ==> name@[j] != '.',
            i > 0 ==> name@[i - 1] == '.',
        decreases i,
    {
        if name.get_char(i - 1) == '.' {
            break;
        }
        i = i - 1;
    }
    proof {
        lemma_last_dot_bounds(name@);
        let ld = last_dot(name@);
        if i > 0 {
            assert(name@[i - 1] == '.');
            assert(ld == i - 1) by {
                if ld < i - 1 {
                    assert(name@[i - 1] != '.');
                }
                if ld > i - 1 {
                    assert(name@[ld] != '.');
                }
            }
        } else {
            assert(ld == -1) by {
                if ld >= 0 {
                    assert(name@[ld] != '.');
                }
            }
        }
    }
    if i <= 1 {
        return None;
    }
    if len == 2 && name.get_char(0) == '.' && name.get_char(1) == '.' {
        assert(name@ == seq!['.', '.']);
        return None;
    }
    assert(name@ != seq!['.', '.']) by {
        if name@ == seq!['.', '.'] {
            assert(name@.len() == 2);
        }
    }
    let e = name.substring_char(i, len);
    Some(e.to_owned())
}

/// Whether `ext` is one of the played audio extensions.
pub fn is_audio_extension(ext: &str) -> (r: bool)
    ensures
        r == is_audio_extension_spec(ext@),
{
    if ext.unicode_len() != 3 {
        return false;
    }
    let a = ext.get_char(0);
    let b = ext.get_char(1);
    let c = ext.get_char(2);
    let r = (a == 'o' && b == 'g' && c == 'g') || (a == 'w' && b == 'a' && c == 'v') || (a == 'm'
        && b == 'p' && c == '3');
    assert(r == is_audio_extension_spec(ext@)) by {
        if r {
            assert(ext@ == seq![a, b, c]);
        }
    }
    r
}

/// Whether one directory entry is to be loaded.
pub fn is_eligible(e: &ScanEntry) -> (r: bool)
    ensures
        r == is_eligible_spec(*e),
{
    if !e.is_file {
        return false;
    }
    match extension(e.file_name.as_str()) {
        Some(ext) => is_audio_extension(ext.as_str()),
        None => false,
    }
}

/// The positions of the entries to load, in the order they were met. Every
/// eligible entry appears exactly once and no other entry appears at all.
pub fn select_eligible(entries: &Vec<ScanEntry>) -> (r: Vec<usize>)
    ensures
        forall|k: int| 0 <= k < r@.len() ==> r@[k] < entries@.len(),
        forall|a: int, b: int| 0 <= a < b < r@.len() ==> r@[a] < r@[b],
        r@.no_duplicates(),
        forall|i: int|
            0 <= i < entries@.len() ==> (r@.contains(i as usize) <==> is_eligible_spec(
                entries@[i],
            )),
{
    let mut r: Vec<usize> = Vec::new();
    let mut i: usize = 0;
    while i < entries.len()
        invariant
            i <= entries@.len(),
            forall|k: int| 0 <= k < r@.len() ==> r@[k] < i,
            forall|a: int, b: int| 0 <= a < b < r@.len() ==> r@[a] < r@[b],
            forall|j: int|
                0 <= j < i ==> (r@.contains(j as usize) <==> is_eligible_spec(entries@[j])),
        decreases entries@.len() - i,
    {
        let keep = is_eligible(&entries[i]);
        let ghost prev = r@;
        if keep {
            r.push(i);
        }
        assert forall|j: int|
            0 <= j < i + 1 implies (r@.contains(j as usize) <==> is_eligible_spec(
                entries@[j],
            )) by {
            if j < i {
                if keep {
                    if r@.contains(j as usize) {
                        let k = choose|k: int| 0 <= k < r@.len() && r@[k] == j as usize;
                        assert(k < prev.len());
                        assert(prev[k] == j as usize);
                    }
                    if prev.contains(j as usize) {
                        let k = choose|k: int| 0 <= k < prev.len() && prev[k] == j as usize;
                        assert(r@[k] == j as usize);
                    }
                }
            } else {
                if keep {
                    assert(r@[r@.len() - 1] == i);
                } else {
                    if r@.contains(j as usize) {
                        let k = choose|k: int| 0 <= k < r@.len() && r@[k] == j as usize;
                        assert(r@[k] < i);
                    }
                }
            }
        }
        i = i + 1;
    }
    assert forall|a: int, b: int| 0 <= a < r@.len() && 0 <= b < r@.len() && a != b implies r@[a]
        != r@[b] by {
        if a < b {
            assert(r@[a] < r@[b]);
        } else {
            assert(r@[b] < r@[a]);
        }
    }
    r
}

} // verus!
