//! The file names of rendered groups and of their layers.

use vstd::prelude::*;
use vstd::string::*;

verus! {

/// `text` with every occurrence of `pattern` replaced by `with`, found from
/// the left and without overlap.
pub open spec fn replaced(text: Seq<char>, pattern: Seq<char>, with: Seq<char>) -> Seq<char>
    recommends
        pattern.len() > 0,
    decreases text.len(),
{
    if pattern.len() == 0 || text.len() < pattern.len() {
        text
    } else if text.subrange(0, pattern.len() as int) == pattern {
        with + replaced(text.subrange(pattern.len() as int, text.len() as int), pattern, with)
    } else {
        seq![text[0]] + replaced(text.subrange(1, text.len() as int), pattern, with)
    }
}

/// Whether `pattern` stands in `text` at character `start`.
fn matches_at(text: &str, start: usize, pattern: &str) -> (found: bool)
    requires
        start + pattern@.len() <= text@.len() <= usize::MAX,
    ensures
        found == (text@.subrange(start as int, start + pattern@.len()) == pattern@),
{
    let length = pattern.unicode_len();
    let mut i: usize = 0;
    while i < length
        invariant
            i <= length,
            length == pattern@.len(),
            start + length <= text@.len() <= usize::MAX,
            forall|k: int| 0 <= k < i ==> text@[start + k] == pattern@[k],
        decreases length - i,
    {
        if text.get_char(start + i) != pattern.get_char(i) {
            proof {
                assert(text@.subrange(start as int, start + length)[i as int] != pattern@[i as int]);
            }
            return false;
        }
        i += 1;
    }
    proof {
        assert(text@.subrange(start as int, start + length) =~= pattern@);
    }
    true
}

/// Whether two texts are the same, character for character.
pub fn same_text(a: &str, b: &str) -> (same: bool)
    ensures
        same == (a@ == b@),
{
    let length = a.unicode_len();
    if b.unicode_len() != length {
        return false;
    }
    proof {
        assert(a@.subrange(0, length as int) == a@);
    }
    matches_at(a, 0, b)
}

/// Replaces every occurrence of `pattern` in `text` by `with`.
pub fn replace_all(text: &str, pattern: &str, with: &str) -> (out: String)
    requires
        pattern@.len() > 0,
    ensures
        out@ == replaced(text@, pattern@, with@),
{
    let length = text.unicode_len();
    let span = pattern.unicode_len();
    let mut out = String::new();
    let mut i: usize = 0;
    proof {
        assert(text@.subrange(0, length as int) == text@);
        assert(out@ + replaced(text@, pattern@, with@) =~= replaced(text@, pattern@, with@));
    }
    while i < length
        invariant
            i <= length,
            length == text@.len(),
            span == pattern@.len(),
            span > 0,
            out@ + replaced(text@.subrange(i as int, length as int), pattern@, with@) == replaced(
                text@,
                pattern@,
                with@,
            ),
        decreases length - i,
    {
        let ghost rest = text@.subrange(i as int, length as int);
        if span <= length - i && matches_at(text, i, pattern) {
            proof {
                assert(rest.subrange(0, span as int) == text@.subrange(i as int, i + span));
                assert(rest.subrange(span as int, rest.len() as int) == text@.subrange(
                    i + span,
                    length as int,
                ));
                assert(out@ + (with@ + replaced(
                    text@.subrange(i + span, length as int),
                    pattern@,
                    with@,
                )) =~= (out@ + with@) + replaced(
                    text@.subrange(i + span, length as int),
                    pattern@,
                    with@,
                ));
            }
            out.append(with);
            i += span;
        } else {
            let piece = text.substring_char(i, i + 1);
            proof {
                let tail = text@.subrange(i + 1, length as int);
                assert(rest.subrange(1, rest.len() as int) == tail);
                assert(piece@ == seq![rest[0]]);
                if span <= length - i {
                    assert(rest.subrange(0, span as int) == text@.subrange(i as int, i + span));
                } else {
                    assert(replaced(tail, pattern@, with@) == tail);
                    assert(seq![rest[0]] + tail == rest);
                }
                assert(replaced(rest, pattern@, with@) == seq![rest[0]] + replaced(
                    tail,
                    pattern@,
                    with@,
                ));
                assert(out@ + (piece@ + replaced(tail, pattern@, with@)) =~= (out@ + piece@)
                    + replaced(tail, pattern@, with@));
            }
            out.append(piece);
            i += 1;
        }
    }
    proof {
        assert(text@.subrange(length as int, length as int) =~= Seq::<char>::empty());
        assert(out@ + Seq::<char>::empty() =~= out@);
    }
    out
}

/// The decimal digit of a number below ten.
pub open spec fn digit(value: int) -> char {
    if value == 0 {
        '0'
    } else if value == 1 {
        '1'
    } else if value == 2 {
        '2'
    } else if value == 3 {
        '3'
    } else if value == 4 {
        '4'
    } else if value == 5 {
        '5'
    } else if value == 6 {
        '6'
    } else if value == 7 {
        '7'
    } else if value == 8 {
        '8'
    } else {
        '9'
    }
}

/// A number written in decimal, without leading zeros.
pub open spec fn decimal(value: nat) -> Seq<char>
    decreases value,
{
    if value < 10 {
        seq![digit(value as int)]
    } else {
        decimal(value / 10).push(digit((value % 10) as int))
    }
}

fn digit_text(value: usize) -> (text: &'static str)
    requires
        value < 10,
    ensures
        text@ == seq![digit(value as int)],
{
    proof {
        reveal_strlit("0");
        reveal_strlit("1");
        reveal_strlit("2");
        reveal_strlit("3");
        reveal_strlit("4");
        reveal_strlit("5");
        reveal_strlit("6");
        reveal_strlit("7");
        reveal_strlit("8");
        reveal_strlit("9");
    }
    let text = if value == 0 {
        "0"
    } else if value == 1 {
        "1"
    } else if value == 2 {
        "2"
    } else if value == 3 {
        "3"
    } else if value == 4 {
        "4"
    } else if value == 5 {
        "5"
    } else if value == 6 {
        "6"
    } else if value == 7 {
        "7"
    } else if value == 8 {
        "8"
    } else {
        "9"
    };
    assert(text@ =~= seq![digit(value as int)]);
    text
}

/// Appends a number in decimal.
pub fn push_decimal(out: &mut String, value: usize)
    ensures
        final(out)@ == old(out)@ + decimal(value as nat),
    decreases value,
{
    if value >= 10 {
        push_decimal(out, value / 10);
    }
    let ghost before = out@;
    out.append(digit_text(value % 10));
    proof {
        if value >= 10 {
            assert(before + seq![digit((value % 10) as int)] =~= old(out)@ + decimal(
                (value / 10) as nat,
            ).push(digit((value % 10) as int)));
        }
    }
}

/// The index of the last `mark` in `text`, or -1 where there is none.
pub open spec fn last_index_of(text: Seq<char>, mark: char) -> int
    decreases text.len(),
{
    if text.len() == 0 {
        -1
    } else if text.last() == mark {
        text.len() - 1
    } else {
        last_index_of(text.drop_last(), mark)
    }
}

/// How many characters of a file name come before its extension: all of them
/// where the last path component has no dot after its first character.
pub open spec fn stem_length(name: Seq<char>) -> int {
    let dot = last_index_of(name, '.');
    let slash = last_index_of(name, '/');
    if dot > slash + 1 {
        dot
    } else {
        name.len() as int
    }
}

/// The file name of one layer of a group: the group's own name where the
/// group has a single layer, else its name with the layer's index put before
/// the extension.
pub open spec fn layer_name(name: Seq<char>, index: nat, layer_count: nat) -> Seq<char> {
    if layer_count > 1 {
        name.subrange(0, stem_length(name)) + seq!['-'] + decimal(index) + ".qoi"@
    } else {
        name
    }
}

proof fn lemma_last_index_bounds(text: Seq<char>, mark: char)
    ensures
        -1 <= last_index_of(text, mark) < text.len(),
    decreases text.len(),
{
    if text.len() > 0 && text.last() != mark {
        lemma_last_index_bounds(text.drop_last(), mark);
    }
}

fn find_last(text: &str, mark: char) -> (found: Option<usize>)
    ensures
        match found {
            Some(index) => index == last_index_of(text@, mark),
            None => last_index_of(text@, mark) == -1,
        },
{
    let length = text.unicode_len();
    let mut end: usize = length;
    proof {
        assert(text@.subrange(0, length as int) == text@);
    }
    while end > 0
        invariant
            end <= length,
            length == text@.len(),
            last_index_of(text@, mark) == last_index_of(text@.subrange(0, end as int), mark),
        decreases end,
    {
        proof {
            assert(text@.subrange(0, end as int).drop_last() == text@.subrange(0, end - 1));
        }
        if text.get_char(end - 1) == mark {
            return Some(end - 1);
        }
        end -= 1;
    }
    None
}

/// The file name of layer `index` of a group that has `layer_count` layers.
pub fn layer_file_name(name: &str, index: usize, layer_count: usize) -> (file: String)
    ensures
        file@ == layer_name(name@, index as nat, layer_count as nat),
{
    if layer_count <= 1 {
        return String::from_str(name);
    }
    let length = name.unicode_len();
    let dot = find_last(name, '.');
    let slash = find_last(name, '/');
    proof {
        lemma_last_index_bounds(name@, '.');
        lemma_last_index_bounds(name@, '/');
    }
    let stem: usize = match dot {
        None => length,
        Some(dot) => match slash {
            None => if dot > 0 {
                dot
            } else {
                length
            },
            Some(slash) => if dot > slash + 1 {
                dot
            } else {
                length
            },
        },
    };
    let mut file = String::from_str(name.substring_char(0, stem));
    file.append("-");
    push_decimal(&mut file, index);
    file.append(".qoi");
    proof {
        reveal_strlit("-");
        assert("-"@ =~= seq!['-']);
    }
    file
}

} // verus!
