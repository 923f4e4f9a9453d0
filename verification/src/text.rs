//! Text as contracts see it.

use vstd::prelude::*;

verus! {

/// The mathematical model of a string: its sequence of characters.
pub type Text = Seq<char>;

/// The longest text, in bytes of UTF-8, that this library hands to a URL
/// operation. A URL is indexed by 32-bit offsets; below this limit no
/// operation used here can leave that range.
pub const TEXT_LIMIT: usize = 0x100_0000;

/// Whether a text is short enough to take part in a URL.
pub open spec fn fits(text: Text) -> bool {
    vstd::utf8::encode_utf8(text).len() <= TEXT_LIMIT
}

/// Tests `fits` on a string.
pub fn text_fits(text: &str) -> (ok: bool)
    ensures
        ok == fits(text@),
{
    text.as_bytes().len() <= TEXT_LIMIT
}

/// The model of a list after a push is the model before it with the model
/// of the new item at its end.
pub proof fn lemma_deep_view_push<T: DeepView>(before: Vec<T>, after: Vec<T>, item: T)
    requires
        after@ == before@.push(item),
    ensures
        after.deep_view() == before.deep_view().push(item.deep_view()),
{
    assert(after.deep_view() =~= before.deep_view().push(item.deep_view())) by {
        assert forall|j: int| 0 <= j < after@.len() implies after.deep_view()[j]
            == before.deep_view().push(item.deep_view())[j] by {
            if j < before@.len() {
                assert(after@[j] == before@[j]);
            } else {
                assert(after@[j] == item);
            }
        }
    }
}

/// The model of a list after one item was replaced is the model before it
/// with the model of the new item in that place.
pub proof fn lemma_deep_view_update<T: DeepView>(before: Vec<T>, after: Vec<T>, at: int, item: T)
    requires
        0 <= at < before@.len(),
        after@ == before@.update(at, item),
    ensures
        after.deep_view() == before.deep_view().update(at, item.deep_view()),
{
    assert(after.deep_view() =~= before.deep_view().update(at, item.deep_view())) by {
        assert forall|j: int| 0 <= j < after@.len() implies after.deep_view()[j]
            == before.deep_view().update(at, item.deep_view())[j] by {
            if j == at {
                assert(after@[j] == item);
            } else {
                assert(after@[j] == before@[j]);
            }
        }
    }
}

/// A copy of a list of strings.
pub fn copy_texts(texts: &Vec<String>) -> (copy: Vec<String>)
    ensures
        copy.deep_view() == texts.deep_view(),
{
    let mut copy: Vec<String> = Vec::new();
    let mut i: usize = 0;
    while i < texts.len()
        invariant
            i <= texts.len(),
            copy.deep_view() == texts.deep_view().take(i as int),
        decreases texts.len() - i,
    {
        let ghost before = copy;
        let text = texts[i].clone();
        proof {
            assert(text.deep_view() == texts.deep_view()[i as int]);
        }
        copy.push(text);
        proof {
            lemma_deep_view_push(before, copy, text);
            assert(copy.deep_view() =~= texts.deep_view().take(i as int + 1));
        }
        i += 1;
    }
    proof {
        assert(texts.deep_view().take(texts.len() as int) =~= texts.deep_view());
    }
    copy
}

/// The parts of a text between the occurrences of a separator, in order. A
/// text without the separator is its own single part.
pub open spec fn split(text: Text, sep: char) -> Seq<Text>
    decreases text.len(),
{
    match text.index_of_first(sep) {
        Some(at) => if 0 <= at < text.len() {
            seq![text.take(at)] + split(text.skip(at + 1), sep)
        } else {
            seq![text]
        },
        None => seq![text],
    }
}

/// A text with a separator splits into what stands before the first one,
/// and the parts of what follows it.
pub proof fn lemma_split_at_the_first(text: Text, sep: char, at: int)
    requires
        0 <= at < text.len(),
        text[at] == sep,
        forall|j: int| 0 <= j < at ==> text[j] != sep,
    ensures
        split(text, sep) == seq![text.take(at)] + split(text.skip(at + 1), sep),
{
    text.index_of_first_ensures(sep);
}

/// A text without the separator is its own single part.
pub proof fn lemma_split_of_one_part(text: Text, sep: char)
    requires
        forall|j: int| 0 <= j < text.len() ==> text[j] != sep,
    ensures
        split(text, sep) == seq![text],
{
    text.index_of_first_ensures(sep);
}

/// Splits a string at each occurrence of a separator.
pub fn split_text(text: &str, sep: char) -> (parts: Vec<String>)
    ensures
        parts.deep_view() == split(text@, sep),
{
    let len = text.unicode_len();
    let mut parts: Vec<String> = Vec::new();
    let mut from: usize = 0;
    let mut at: usize = 0;
    proof {
        assert(text@.skip(0) =~= text@);
        assert(parts.deep_view() =~= Seq::<Text>::empty());
    }
    while at < len
        invariant
            len == text@.len(),
            from <= at <= len,
            forall|j: int| from <= j < at ==> text@[j] != sep,
            split(text@, sep) == parts.deep_view() + split(text@.skip(from as int), sep),
        decreases len - at,
    {
        if text.get_char(at) == sep {
            let ghost before = parts;
            let part = String::from_str(text.substring_char(from, at));
            parts.push(part);
            proof {
                let rest = text@.skip(from as int);
                assert(rest[at - from] == sep);
                lemma_split_at_the_first(rest, sep, at - from);
                assert(rest.take(at - from) =~= text@.subrange(from as int, at as int));
                assert(rest.skip(at - from + 1) =~= text@.skip(at as int + 1));
                lemma_deep_view_push(before, parts, part);
                assert(parts.deep_view() + split(text@.skip(at as int + 1), sep) =~= before.deep_view()
                    + split(rest, sep));
            }
            from = at + 1;
        }
        at += 1;
    }
    let ghost before = parts;
    let part = String::from_str(text.substring_char(from, len));
    parts.push(part);
    proof {
        let rest = text@.skip(from as int);
        lemma_split_of_one_part(rest, sep);
        assert(rest =~= text@.subrange(from as int, len as int));
        lemma_deep_view_push(before, parts, part);
        assert(parts.deep_view() =~= before.deep_view() + split(rest, sep));
    }
    parts
}

/// The character of a decimal digit.
pub open spec fn digit(value: nat) -> char {
    if value == 0 {
        '0'
    } else if value == 1 {
        '1'
    } else if value == 2 {
        '2'
    } else if value == 3 {
        '3'
    } else if value == 4 {
        '4'
    } else if value == 5 {
        '5'
    } else if value == 6 {
        '6'
    } else if value == 7 {
        '7'
    } else if value == 8 {
        '8'
    } else {
        '9'
    }
}

/// A number in decimal digits, without leading zeros.
pub open spec fn decimal(value: nat) -> Text
    decreases value,
{
    if value < 10 {
        seq![digit(value)]
    } else {
        decimal(value / 10).push(digit(value % 10))
    }
}

/// The one-character string of a decimal digit.
fn digit_text(value: u16) -> (text: &'static str)
    requires
        value < 10,
    ensures
        text@ == seq![digit(value as nat)],
{
    proof {
        reveal_strlit("0");
        reveal_strlit("1");
        reveal_strlit("2");
        reveal_strlit("3");
        reveal_strlit("4");
        reveal_strlit("5");
        reveal_strlit("6");
        reveal_strlit("7");
        reveal_strlit("8");
        reveal_strlit("9");
    }
    let text = if value == 0 {
        "0"
    } else if value == 1 {
        "1"
    } else if value == 2 {
        "2"
    } else if value == 3 {
        "3"
    } else if value == 4 {
        "4"
    } else if value == 5 {
        "5"
    } else if value == 6 {
        "6"
    } else if value == 7 {
        "7"
    } else if value == 8 {
        "8"
    } else {
        "9"
    };
    proof {
        assert(text@ =~= seq![digit(value as nat)]);
    }
    text
}

/// Writes a number in decimal digits.
pub fn decimal_of(value: u16) -> (text: String)
    ensures
        text@ == decimal(value as nat),
    decreases value,
{
    if value < 10 {
        String::from_str(digit_text(value))
    } else {
        let mut text = decimal_of(value / 10);
        text.append(digit_text(value % 10));
        proof {
            assert(text@ =~= decimal(value as nat / 10).push(digit(value as nat % 10)));
        }
        text
    }
}

} // verus!
