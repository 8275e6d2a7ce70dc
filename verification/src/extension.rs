//! The extension of a file name, and the one extension that marks an audio file.

use vstd::prelude::*;
use crate::text::eq_ignore_ascii_case;
use crate::text::same_ignoring_ascii_case;

verus! {

/// The position of the last dot in `name`, or -1 where it has none.
pub open spec fn last_dot(name: Seq<char>) -> int
    decreases name.len(),
{
    if name.len() == 0 {
        -1
    } else if name.last() == '.' {
        name.len() - 1
    } else {
        last_dot(name.drop_last())
    }
}

/// The extension of a file name: what follows its last dot.
///
/// There is none where the name has no dot, where its only dot is the first
/// character, and for the name `..`.
pub open spec fn extension_of(name: Seq<char>) -> Option<Seq<char>> {
    if last_dot(name) > 0 && name != seq!['.', '.'] {
        Some(name.skip(last_dot(name) + 1))
    } else {
        None
    }
}

/// The one extension of audio files that the catalog takes, in lower case.
pub open spec fn audio_extension() -> Seq<char> {
    seq!['m', 'p', '3']
}

/// The extension is the supported one, in any mix of upper and lower case.
pub open spec fn supported_extension(extension: Seq<char>) -> bool {
    eq_ignore_ascii_case(extension, audio_extension())
}

/// The name is that of an audio file: it has an extension, and it is the
/// supported one.
pub open spec fn audio_name(name: Seq<char>) -> bool {
    extension_of(name) matches Some(extension) && supported_extension(extension)
}

/// `last_dot` is a position of a dot, and no dot follows it.
pub proof fn lemma_last_dot(name: Seq<char>)
    ensures
        -1 <= last_dot(name) < name.len(),
        last_dot(name) >= 0 ==> name[last_dot(name)] == '.',
        forall|j: int| last_dot(name) < j < name.len() ==> #[trigger] name[j] != '.',
    decreases name.len(),
{
    if name.len() > 0 && name.last() != '.' {
        lemma_last_dot(name.drop_last());
        assert forall|j: int| last_dot(name) < j < name.len() implies #[trigger] name[j]
            != '.' by {
            if j < name.len() - 1 {
                assert(name.drop_last()[j] == name[j]);
            }
        }
    }
}

/// A position that holds a dot and is followed by none is `last_dot`.
pub proof fn lemma_last_dot_is(name: Seq<char>, d: int)
    requires
        -1 <= d < name.len(),
        d >= 0 ==> name[d] == '.',
        forall|j: int| d < j < name.len() ==> #[trigger] name[j] != '.',
    ensures
        last_dot(name) == d,
{
    lemma_last_dot(name);
    let l = last_dot(name);
    if l < d {
        assert(name[d] != '.');
    } else if l > d {
        assert(name[l] != '.');
    }
}

/// A name with an extension is not empty.
pub proof fn lemma_extension_needs_name(name: Seq<char>)
    ensures
        extension_of(name) is Some ==> name.len() >= 2,
{
    lemma_last_dot(name);
}

/// Finds the extension of `name`.
pub fn extension(name: &str) -> (found: Option<&str>)
    ensures
        match found {
            Some(e) => extension_of(name@) == Some(e@),
            None => extension_of(name@) is None,
        },
{
    let n: usize = name.unicode_len();
    let mut i: usize = n;
    while i > 0
        invariant
            i <= n,
            n == name@.len(),
            forall|j: int| i <= j < n ==> #[trigger] name@[j] != '.',
        decreases i,
    {
        if name.get_char(i - 1) == '.' {
            proof {
                lemma_last_dot_is(name@, i - 1);
            }
            if i - 1 == 0 {
                return None;
            }
            if n == 2 && name.get_char(0) == '.' {
                proof {
                    assert(name@ =~= seq!['.', '.']);
                }
                return None;
            }
            proof {
                assert(name@ != seq!['.', '.']) by {
                    if name@ == seq!['.', '.'] {
                        assert(seq!['.', '.'].len() == 2);
                        assert(seq!['.', '.'][0] == '.');
                    }
                }
                assert(name@.skip(i as int) =~= name@.subrange(i as int, n as int));
            }
            return Some(name.substring_char(i, n));
        }
        i -= 1;
    }
    proof {
        lemma_last_dot_is(name@, -1);
    }
    None
}

/// Tells whether `extension` is the supported one.
pub fn is_supported_extension(extension: &str) -> (r: bool)
    ensures
        r == supported_extension(extension@),
{
    proof {
        reveal_strlit("mp3");
        assert("mp3"@ =~= audio_extension());
    }
    same_ignoring_ascii_case(extension, "mp3")
}

/// Tells whether `name` is the name of an audio file.
pub fn is_audio_name(name: &str) -> (r: bool)
    ensures
        r == audio_name(name@),
{
    match extension(name) {
        Some(e) => is_supported_extension(e),
        None => false,
    }
}

} // verus!
