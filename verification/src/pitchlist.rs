//! How a set of pitches is written: its pitches as decimal numbers in rising
//! order, with commas between them.

use crate::protocol::{NoteSet, PITCHES};
use crate::text::{decimal, decimal_value, lemma_number_of_decimal, number, read_number, write_number};
use vstd::prelude::*;

verus! {

/// The pitches of `set` from `from` upwards, written in rising order with
/// commas between them. `first` says that no pitch was written before.
pub open spec fn pitch_items(set: Set<u8>, from: nat, first: bool) -> Seq<char>
    decreases 128 - from,
{
    if from >= 128 {
        Seq::empty()
    } else if set.contains(from as u8) {
        (if first {
            Seq::<char>::empty()
        } else {
            seq![',']
        }) + decimal(from) + pitch_items(set, from + 1, false)
    } else {
        pitch_items(set, from + 1, first)
    }
}

/// The pitches of `set`, written.
pub open spec fn pitch_text(set: Set<u8>) -> Seq<char> {
    pitch_items(set, 0, true)
}

/// The pitches of `set` from `from` upwards.
pub open spec fn pitches_from(set: Set<u8>, from: nat) -> Set<u8> {
    Set::new(|pitch: u8| set.contains(pitch) && from <= pitch < 128)
}

/// Where the first comma of `text` stands, or the length of `text` if it
/// has none.
pub open spec fn first_comma(text: Seq<char>) -> int
    decreases text.len(),
{
    if text.len() == 0 || text[0] == ',' {
        0
    } else {
        1 + first_comma(text.drop_first())
    }
}

/// The pitches that a text of numbers and commas names.
pub open spec fn pitches_in(text: Seq<char>) -> Option<Set<u8>>
    decreases text.len(),
{
    if text.len() == 0 {
        Some(Set::empty())
    } else {
        let cut = first_comma(text);
        match number(text.take(cut)) {
            Some(pitch) => if pitch >= 128 || !(0 <= cut <= text.len()) {
                None
            } else if cut == text.len() {
                Some(Set::empty().insert(pitch as u8))
            } else {
                match pitches_in(text.skip(cut + 1)) {
                    Some(rest) => Some(rest.insert(pitch as u8)),
                    None => None,
                }
            },
            None => None,
        }
    }
}

/// The first comma stands where the text before it has none.
pub proof fn lemma_first_comma(text: Seq<char>, cut: int)
    requires
        0 <= cut <= text.len(),
        forall|i: int| 0 <= i < cut ==> text[i] != ',',
        cut < text.len() ==> text[cut] == ',',
    ensures
        first_comma(text) == cut,
    decreases cut,
{
    if cut > 0 {
        lemma_first_comma(text.drop_first(), cut - 1);
    }
}

/// Pitches that follow others are the same text with a comma before it.
proof fn lemma_items_after_first(set: Set<u8>, from: nat)
    ensures
        pitch_items(set, from, false) == (if pitch_items(set, from, true).len() == 0 {
            Seq::<char>::empty()
        } else {
            seq![','] + pitch_items(set, from, true)
        }),
    decreases 128 - from,
{
    if from < 128 {
        if set.contains(from as u8) {
            let number = decimal(from);
            let rest = pitch_items(set, from + 1, false);
            lemma_number_of_decimal(from);
            assert(Seq::<char>::empty() + number + rest =~= number + rest);
            assert(seq![','] + number + rest =~= seq![','] + (number + rest));
        } else {
            lemma_items_after_first(set, from + 1);
        }
    }
}

/// The pitches of a set that are written and read again are the same
/// pitches, as far as they are pitches at all.
pub proof fn lemma_pitches_in_items(set: Set<u8>, from: nat)
    ensures
        pitches_in(pitch_items(set, from, true)) == Some(pitches_from(set, from)),
    decreases 128 - from,
{
    if from >= 128 {
        assert(pitches_from(set, from) =~= Set::<u8>::empty());
    } else if !set.contains(from as u8) {
        lemma_pitches_in_items(set, from + 1);
        assert(pitches_from(set, from) =~= pitches_from(set, from + 1));
    } else {
        let number_text = decimal(from);
        let rest = pitch_items(set, from + 1, false);
        let text = pitch_items(set, from, true);
        lemma_number_of_decimal(from);
        lemma_items_after_first(set, from + 1);
        lemma_pitches_in_items(set, from + 1);
        assert(text =~= number_text + rest);
        let cut = number_text.len() as int;
        assert forall|i: int| 0 <= i < cut implies text[i] != ',' by {
            assert(text[i] == number_text[i]);
            assert(decimal_value(number_text[i]).is_some());
        }
        lemma_first_comma(text, cut);
        assert(text.take(cut) =~= number_text);
        if rest.len() == 0 {
            assert(pitch_items(set, from + 1, true).len() == 0);
            assert(pitches_from(set, from + 1) == Set::<u8>::empty());
            assert(pitches_from(set, from) =~= Set::<u8>::empty().insert(from as u8)) by {
                assert forall|pitch: u8| pitches_from(set, from).contains(pitch) implies pitch
                    == from by {
                    if pitch != from {
                        assert(pitches_from(set, from + 1).contains(pitch));
                    }
                }
            }
        } else {
            assert(text.skip(cut + 1) =~= pitch_items(set, from + 1, true));
            assert(pitches_from(set, from) =~= pitches_from(set, from + 1).insert(from as u8));
        }
    }
}

/// Writes the pitches of `set` at the end of `out`.
pub(crate) fn write_pitches(out: &mut Vec<char>, set: &NoteSet)
    ensures
        final(out)@ == old(out)@ + pitch_text(set@),
{
    let mut pitch: u8 = 0;
    let mut first = true;
    while pitch < PITCHES
        invariant
            pitch <= 128,
            out@ + pitch_items(set@, pitch as nat, first) == old(out)@ + pitch_text(set@),
        decreases 128 - pitch,
    {
        let ghost before = out@;
        if set.contains(pitch) {
            if !first {
                out.push(',');
            }
            let ghost separated = out@;
            write_number(out, pitch as u64);
            proof {
                let separator = if first {
                    Seq::<char>::empty()
                } else {
                    seq![',']
                };
                assert(separated =~= before + separator);
                assert(out@ + pitch_items(set@, pitch as nat + 1, false) =~= before + (separator
                    + decimal(pitch as nat) + pitch_items(set@, pitch as nat + 1, false)));
            }
            first = false;
        }
        pitch = pitch + 1;
    }
    assert(out@ + Seq::<char>::empty() =~= out@);
}

/// Reads the characters from `from` up to `to` as pitches with commas
/// between them.
pub(crate) fn read_pitches(chars: &Vec<char>, from: usize, to: usize) -> (read: Option<NoteSet>)
    requires
        from <= to <= chars.len(),
    ensures
        match read {
            Some(set) => pitches_in(chars@.subrange(from as int, to as int)) == Some(set@),
            None => pitches_in(chars@.subrange(from as int, to as int)).is_none(),
        },
{
    let ghost whole = chars@.subrange(from as int, to as int);
    let mut set = NoteSet::new();
    let mut i: usize = from;
    assert(whole.skip(0) =~= whole);
    while i < to
        invariant
            from <= i <= to <= chars.len(),
            whole == chars@.subrange(from as int, to as int),
            pitches_in(whole) == (match pitches_in(whole.skip(i - from)) {
                Some(rest) => Some(set@.union(rest)),
                None => None,
            }),
        decreases to - i,
    {
        let ghost text = whole.skip(i - from);
        let ghost before = set@;
        let mut cut: usize = i;
        while cut < to && chars[cut] != ','
            invariant
                i <= cut <= to <= chars.len(),
                forall|k: int| i <= k < cut ==> chars@[k] != ',',
            decreases to - cut,
        {
            cut = cut + 1;
        }
        proof {
            assert forall|k: int| 0 <= k < cut - i implies text[k] != ',' by {
                assert(text[k] == chars@[i + k]);
            }
            if cut < to {
                assert(text[cut - i] == chars@[cut as int]);
            }
            lemma_first_comma(text, cut - i);
            assert(text.take(cut - i) =~= chars@.subrange(i as int, cut as int));
        }
        let pitch = match read_number(chars, i, cut, 127) {
            Some(pitch) => pitch as u8,
            None => {
                return None;
            },
        };
        set.insert(pitch);
        if cut == to {
            proof {
                assert(before.union(Set::<u8>::empty().insert(pitch)) =~= set@);
            }
            return Some(set);
        }
        proof {
            assert(text.skip(cut - i + 1) =~= whole.skip(cut + 1 - from));
            match pitches_in(whole.skip(cut + 1 - from)) {
                Some(rest) => {
                    assert(before.union(rest.insert(pitch)) =~= set@.union(rest));
                },
                None => {},
            }
        }
        i = cut + 1;
    }
    proof {
        assert(whole.skip(to - from) =~= Seq::<char>::empty());
        assert(set@.union(Set::<u8>::empty()) =~= set@);
    }
    Some(set)
}

} // verus!
