//! Text as the key events that type it.

use vstd::prelude::*;

verus! {

/// What a keyboard event is about.
#[derive(Clone, Copy, Debug, PartialEq, Eq)]
pub enum Key {
    /// A UTF-16 code unit, entered in Unicode input mode.
    Unicode(u16),
    /// The ENTER key.
    Enter,
}

/// One keyboard event.
#[derive(Clone, Copy, Debug, PartialEq, Eq)]
pub struct KeyStroke {
    pub key: Key,
    /// Whether the key goes up; otherwise it goes down.
    pub release: bool,
}

/// The code unit that stands for a character: its code point where that
/// fits into sixteen bits, and the low sixteen bits of it otherwise.
pub open spec fn code_unit(c: char) -> u16 {
    (c as u32 % 0x1_0000) as u16
}

/// A key going down and the same key going up.
pub open spec fn press_and_release(key: Key) -> Seq<KeyStroke> {
    seq![KeyStroke { key, release: false }, KeyStroke { key, release: true }]
}

/// The events that type `text`: for each character, in order, a key going
/// down and the same key going up.
pub open spec fn key_strokes(text: Seq<char>) -> Seq<KeyStroke> {
    Seq::new(
        2 * text.len(),
        |i: int| KeyStroke { key: Key::Unicode(code_unit(text[i / 2])), release: i % 2 == 1 },
    )
}

/// The two events that type the character `c`.
pub fn type_unicode_char(c: char) -> (res: [KeyStroke; 2])
    ensures
        res@ == press_and_release(Key::Unicode(code_unit(c))),
{
    let key = Key::Unicode((c as u32 % 0x1_0000) as u16);
    let res = [KeyStroke { key, release: false }, KeyStroke { key, release: true }];
    proof {
        assert(res@ =~= press_and_release(key));
    }
    res
}

/// The two events that press ENTER.
pub fn press_enter() -> (res: [KeyStroke; 2])
    ensures
        res@ == press_and_release(Key::Enter),
{
    let res = [
        KeyStroke { key: Key::Enter, release: false },
        KeyStroke { key: Key::Enter, release: true },
    ];
    proof {
        assert(res@ =~= press_and_release(Key::Enter));
    }
    res
}

/// The events that type `text`.
pub fn type_unicode_text(text: &str) -> (res: Vec<KeyStroke>)
    ensures
        res@ == key_strokes(text@),
{
    let n: usize = text.unicode_len();
    let mut inputs: Vec<KeyStroke> = Vec::new();
    let mut i: usize = 0;
    while i < n
        invariant
            n == text@.len(),
            i <= n,
            inputs@ == key_strokes(text@.take(i as int)),
        decreases n - i,
    {
        let pair = type_unicode_char(text.get_char(i));
        inputs.push(pair[0]);
        inputs.push(pair[1]);
        proof {
            assert(inputs@ =~= key_strokes(text@.take(i + 1)));
        }
        i = i + 1;
    }
    proof {
        assert(text@.take(n as int) =~= text@);
    }
    inputs
}

/// Typing a text takes two events for each of its characters: the events
/// of the first character, then those of the second, and so on.
pub proof fn lemma_two_strokes_per_char(text: Seq<char>)
    ensures
        key_strokes(text).len() == 2 * text.len(),
        forall|i: int|
            0 <= i < text.len() ==> #[trigger] key_strokes(text).subrange(2 * i, 2 * i + 2)
                == press_and_release(Key::Unicode(code_unit(text[i]))),
{
    assert forall|i: int| 0 <= i < text.len() implies #[trigger] key_strokes(text).subrange(
        2 * i,
        2 * i + 2,
    ) == press_and_release(Key::Unicode(code_unit(text[i]))) by {
        assert(key_strokes(text).subrange(2 * i, 2 * i + 2) =~= press_and_release(
            Key::Unicode(code_unit(text[i])),
        ));
    }
}

/// Typing one text after another sends the events of the first, then those
/// of the second.
pub proof fn lemma_key_strokes_concatenate(a: Seq<char>, b: Seq<char>)
    ensures
        key_strokes(a + b) == key_strokes(a) + key_strokes(b),
{
    assert(key_strokes(a + b) =~= key_strokes(a) + key_strokes(b));
}

} // verus!
