//! A command-line argument, split into the text of its number and its label.
//!
//! An argument is the text of a number, optionally followed by a colon and a
//! label: `210:sugar`. Whatever follows a second colon is dropped.
use vstd::prelude::*;
use vstd::string::*;

verus! {

/// The parts of an argument, before the number's text is read.
#[derive(Clone, Debug)]
pub struct Input {
    /// The label, where the argument has a colon.
    pub name: Option<String>,
    /// The text of the number: what stands before the first colon.
    pub value: String,
}

/// An [`Input`] with its texts as sequences of characters.
pub struct InputView {
    pub name: Option<Seq<char>>,
    pub value: Seq<char>,
}

impl View for Input {
    type V = InputView;

    open spec fn view(&self) -> InputView {
        InputView {
            name: match self.name {
                Some(name) => Some(name@),
                None => None,
            },
            value: self.value@,
        }
    }
}

/// The number of characters of `s` that stand before its first colon; the
/// length of `s` where it has none.
pub open spec fn head_len(s: Seq<char>) -> nat
    decreases s.len(),
{
    if s.len() == 0 || s[0] == ':' {
        0
    } else {
        1 + head_len(s.drop_first())
    }
}

/// What stands before the first colon of `s`; all of `s` where it has none.
pub open spec fn head(s: Seq<char>) -> Seq<char> {
    s.take(head_len(s) as int)
}

/// The parts of the argument `s`.
pub open spec fn split_argument(s: Seq<char>) -> InputView {
    let k = head_len(s) as int;
    InputView {
        name: if k == s.len() {
            None
        } else {
            Some(head(s.skip(k + 1)))
        },
        value: head(s),
    }
}

/// `head_len(s)` lies within `s`, no colon stands before it, and where it is
/// short of the end a colon stands at it.
pub proof fn lemma_head_len(s: Seq<char>)
    ensures
        head_len(s) <= s.len(),
        forall|i: int| 0 <= i < head_len(s) ==> s[i] != ':',
        head_len(s) < s.len() ==> s[head_len(s) as int] == ':',
    decreases s.len(),
{
    if s.len() == 0 || s[0] == ':' {
    } else {
        let rest = s.drop_first();
        lemma_head_len(rest);
        assert forall|i: int| 0 <= i < head_len(s) implies s[i] != ':' by {
            if i > 0 {
                assert(s[i] == rest[i - 1]);
            }
        }
        if head_len(s) < s.len() {
            assert(s[head_len(s) as int] == rest[head_len(rest) as int]);
        }
    }
}

/// `head_len` is the only position with the three properties of
/// [`lemma_head_len`].
pub proof fn lemma_head_len_unique(s: Seq<char>, k: int)
    requires
        0 <= k <= s.len(),
        forall|i: int| 0 <= i < k ==> s[i] != ':',
        k < s.len() ==> s[k] == ':',
    ensures
        head_len(s) == k,
{
    lemma_head_len(s);
    let h = head_len(s) as int;
    if h < k {
        assert(s[h] == ':');
    } else if k < h {
        assert(s[k] == ':');
    }
}

impl Input {
    /// Splits an argument at its colons: the text of the number is what
    /// stands before the first, the label what stands between the first and
    /// the second. An argument without a colon has no label.
    pub fn from_str(input: &str) -> (r: Input)
        ensures
            r@ == split_argument(input@),
    {
        let len: usize = input.unicode_len();
        let first: usize = Self::find_colon(input, 0, len);
        let value = input.substring_char(0, first).to_owned();
        proof {
            assert(input@.skip(0) == input@);
            assert(input@.subrange(0, first as int) == head(input@));
        }
        if first == len {
            Input { name: None, value }
        } else {
            let second: usize = Self::find_colon(input, first + 1, len);
            let name = input.substring_char(first + 1, second).to_owned();
            proof {
                let rest = input@.skip(first + 1);
                assert(input@.subrange(first + 1, second as int) == head(rest));
            }
            Input { name: Some(name), value }
        }
    }

    /// The position of the first colon of `input` at or after `from`; `len`
    /// where there is none.
    fn find_colon(input: &str, from: usize, len: usize) -> (r: usize)
        requires
            from <= len == input@.len(),
        ensures
            r == from + head_len(input@.skip(from as int)),
            r <= len,
    {
        let mut at: usize = from;
        while at < len && input.get_char(at) != ':'
            invariant
                from <= at <= len == input@.len(),
                forall|i: int| from <= i < at ==> input@[i] != ':',
            decreases len - at,
        {
            at += 1;
        }
        proof {
            lemma_head_len_unique(input@.skip(from as int), at - from);
        }
        at
    }
}

} // verus!
