use vstd::prelude::*;

verus! {

/// The UTF-16 code units of one character: one unit below `0x10000`,
/// otherwise a high surrogate followed by a low surrogate.
pub open spec fn utf16_of_char(c: char) -> Seq<u16> {
    let v = c as u32;
    if v < 0x10000 {
        seq![v as u16]
    } else {
        seq![(0xD800 + (v - 0x10000) / 0x400) as u16, (0xDC00 + (v - 0x10000) % 0x400) as u16]
    }
}

/// The UTF-16 encoding of a sequence of characters.
pub open spec fn utf16_of(s: Seq<char>) -> Seq<u16>
    decreases s.len(),
{
    if s.len() == 0 {
        Seq::empty()
    } else {
        utf16_of(s.drop_last()) + utf16_of_char(s.last())
    }
}

/// The UTF-16 encoding of `s` followed by a terminating zero unit, the
/// form in which the wide-character Win32 functions take their text.
pub open spec fn wide_null_of(s: Seq<char>) -> Seq<u16> {
    utf16_of(s).push(0u16)
}

/// A UTF-16 high (leading) surrogate unit.
pub open spec fn is_high_surrogate(u: u16) -> bool {
    0xD800 <= u && u <= 0xDBFF
}

/// A UTF-16 low (trailing) surrogate unit.
pub open spec fn is_low_surrogate(u: u16) -> bool {
    0xDC00 <= u && u <= 0xDFFF
}

/// The character that a high and a low surrogate stand for together.
pub open spec fn surrogate_pair_value(high: u16, low: u16) -> u32 {
    (0x10000 + (high - 0xD800) * 0x400 + (low - 0xDC00)) as u32
}

/// UTF-16 decoding, read from the end: a low surrogate preceded by a high
/// surrogate is one character, any other unit is the character of that code.
pub open spec fn decode_utf16(units: Seq<u16>) -> Seq<char>
    decreases units.len(),
{
    if units.len() == 0 {
        Seq::empty()
    } else if units.len() >= 2 && is_low_surrogate(units.last())
        && is_high_surrogate(units[units.len() - 2]) {
        decode_utf16(units.subrange(0, units.len() - 2)).push(
            surrogate_pair_value(units[units.len() - 2], units.last()) as char,
        )
    } else {
        decode_utf16(units.drop_last()).push((units.last() as u32) as char)
    }
}

/// Encoding one more character appends exactly that character to what the
/// units decode to, whatever units come before it.
pub proof fn lemma_decode_appended_char(a: Seq<u16>, c: char)
    ensures
        decode_utf16(a + utf16_of_char(c)) == decode_utf16(a).push(c),
{
    vstd::utf8::char_is_scalar(c);
    let v = c as u32;
    let w = a + utf16_of_char(c);
    if v < 0x10000 {
        assert(w =~= a.push(v as u16));
        assert(w.drop_last() =~= a);
        assert(!is_low_surrogate(w.last()));
        vstd::utf8::char_u32_cast(c, v);
    } else {
        let rest = (v - 0x10000) as u32;
        let hi = (0xD800 + rest / 0x400) as u16;
        let lo = (0xDC00 + rest % 0x400) as u16;
        assert(rest <= 0xFFFFF);
        assert(rest / 0x400 < 0x400);
        assert(w =~= a.push(hi).push(lo));
        assert(w.subrange(0, w.len() - 2) =~= a);
        assert(w[w.len() - 2] == hi);
        assert(w.last() == lo);
        assert(rest == 0x400 * (rest / 0x400) + rest % 0x400);
        assert(surrogate_pair_value(hi, lo) == v);
        vstd::utf8::char_u32_cast(c, v);
    }
}

/// Decoding the UTF-16 encoding of a text gives the text back.
pub proof fn lemma_decode_utf16_of(s: Seq<char>)
    ensures
        decode_utf16(utf16_of(s)) == s,
    decreases s.len(),
{
    if s.len() > 0 {
        lemma_decode_utf16_of(s.drop_last());
        lemma_decode_appended_char(utf16_of(s.drop_last()), s.last());
        assert(s.drop_last().push(s.last()) =~= s);
    }
}

/// The wide form of a text is its UTF-16 encoding with one zero unit after
/// it: dropping the last unit, which is 0, and decoding gives the text back.
/// So distinct texts have distinct wide forms.
pub proof fn lemma_wide_null_round_trip(s: Seq<char>, t: Seq<char>)
    ensures
        wide_null_of(s).len() >= 1,
        wide_null_of(s).last() == 0u16,
        decode_utf16(wide_null_of(s).drop_last()) == s,
        wide_null_of(s) == wide_null_of(t) ==> s == t,
{
    assert(wide_null_of(s).drop_last() =~= utf16_of(s));
    assert(wide_null_of(t).drop_last() =~= utf16_of(t));
    lemma_decode_utf16_of(s);
    lemma_decode_utf16_of(t);
}

/// A character at or above `0x10000` is encoded as exactly two units: the
/// high surrogate `0xD800 + (c - 0x10000) / 0x400` and then the low
/// surrogate `0xDC00 + (c - 0x10000) % 0x400`; a character below `0x10000`
/// is the single unit of its code.
pub proof fn lemma_utf16_units_of_char(c: char)
    ensures
        (c as u32) >= 0x10000 ==> utf16_of(seq![c]) == seq![
            (0xD800 + ((c as u32) - 0x10000) / 0x400) as u16,
            (0xDC00 + ((c as u32) - 0x10000) % 0x400) as u16,
        ],
        (c as u32) < 0x10000 ==> utf16_of(seq![c]) == seq![(c as u32) as u16],
{
    assert(seq![c].drop_last() =~= Seq::<char>::empty());
    assert(seq![c].last() == c);
    assert(utf16_of(Seq::<char>::empty()) =~= Seq::<u16>::empty());
    assert(utf16_of(seq![c]) == utf16_of(Seq::<char>::empty()) + utf16_of_char(c));
    assert(utf16_of(seq![c]) =~= utf16_of_char(c));
}

/// Encodes `text` as UTF-16 and appends a terminating zero unit.
pub fn to_wide_null(text: &str) -> (wide: Vec<u16>)
    ensures
        wide@ == wide_null_of(text@),
        wide@.len() >= 1,
        wide@.last() == 0u16,
        decode_utf16(wide@.drop_last()) == text@,
{
    broadcast use vstd::string::axiom_spec_iter;
    let mut wide: Vec<u16> = Vec::new();
    for c in it: text.chars()
        invariant
            it.seq() == text@,
            wide@ == utf16_of(text@.take(it.index() as int)),
    {
        proof {
            assert(text@.take(it.index() as int + 1).drop_last() =~= text@.take(it.index() as int));
        }
        assert(c == text@[it.index() as int]);
        let ghost before = wide@;
        let v: u32 = c as u32;
        proof {
            vstd::utf8::char_is_scalar(c);
        }
        if v < 0x10000 {
            wide.push(v as u16);
        } else {
            let rest: u32 = v - 0x10000;
            assert(rest / 0x400 < 0x400);
            wide.push((0xD800 + rest / 0x400) as u16);
            wide.push((0xDC00 + rest % 0x400) as u16);
        }
        assert(wide@ =~= before + utf16_of_char(c));
    }
    proof {
        assert(text@.take(text@.len() as int) =~= text@);
    }
    wide.push(0u16);
    proof {
        lemma_wide_null_round_trip(text@, text@);
    }
    wide
}

/// A text without NUL characters encodes to units that are all non-zero, so
/// the appended terminator is the first and only zero that a Win32 function
/// reading the text meets.
pub proof fn lemma_wide_null_terminated_once(s: Seq<char>)
    requires
        forall|i: int| 0 <= i < s.len() ==> (#[trigger] s[i]) as u32 != 0,
    ensures
        wide_null_of(s).last() == 0u16,
        wide_null_of(s).len() == utf16_of(s).len() + 1,
        forall|i: int| 0 <= i < wide_null_of(s).len() - 1 ==> #[trigger] wide_null_of(s)[i] != 0u16,
    decreases s.len(),
{
    if s.len() > 0 {
        let init = s.drop_last();
        assert forall|i: int| 0 <= i < init.len() implies (#[trigger] init[i]) as u32 != 0 by {
            assert(init[i] == s[i]);
        }
        lemma_wide_null_terminated_once(init);
        assert(s[s.len() - 1] as u32 != 0);
        let w = utf16_of(s);
        assert(w =~= utf16_of(init) + utf16_of_char(s.last()));
        assert forall|i: int| 0 <= i < w.len() implies #[trigger] w[i] != 0u16 by {
            if i < utf16_of(init).len() {
                assert(w[i] == wide_null_of(init)[i]);
            } else {
                vstd::utf8::char_is_scalar(s.last());
                assert(w[i] == utf16_of_char(s.last())[i - utf16_of(init).len()]);
            }
        }
        assert forall|i: int| 0 <= i < wide_null_of(s).len() - 1 implies #[trigger] wide_null_of(s)[i] != 0u16 by {
            assert(wide_null_of(s)[i] == w[i]);
        }
    }
}

/// Text made only of characters below `0x10000` (the basic multilingual
/// plane) encodes to one unit per character, equal to the character's code.
pub proof fn lemma_utf16_basic_plane(s: Seq<char>)
    requires
        forall|i: int| 0 <= i < s.len() ==> ((#[trigger] s[i]) as u32) < 0x10000,
    ensures
        utf16_of(s).len() == s.len(),
        forall|i: int| 0 <= i < s.len() ==> #[trigger] utf16_of(s)[i] == (s[i] as u32) as u16,
    decreases s.len(),
{
    if s.len() > 0 {
        let init = s.drop_last();
        assert forall|i: int| 0 <= i < init.len() implies ((#[trigger] init[i]) as u32) < 0x10000 by {
            assert(init[i] == s[i]);
        }
        lemma_utf16_basic_plane(init);
        assert((s[s.len() - 1] as u32) < 0x10000);
        assert forall|i: int| 0 <= i < s.len() implies #[trigger] utf16_of(s)[i] == (s[i] as u32) as u16 by {
            if i < init.len() {
                assert(utf16_of(init)[i] == (init[i] as u32) as u16);
            }
        }
    }
}

} // verus!
