//! Small text helpers for the command layer: digit-to-emoji rendering of
//! queue positions, and the uwu text transform.

use vstd::prelude::*;

verus! {

/// The emoji short-code of one decimal digit.
pub open spec fn emoji_digit(d: nat) -> Seq<char> {
    if d == 0 {
        ":zero:"@
    } else if d == 1 {
        ":one:"@
    } else if d == 2 {
        ":two:"@
    } else if d == 3 {
        ":three:"@
    } else if d == 4 {
        ":four:"@
    } else if d == 5 {
        ":five:"@
    } else if d == 6 {
        ":six:"@
    } else if d == 7 {
        ":seven:"@
    } else if d == 8 {
        ":eight:"@
    } else {
        ":nine:"@
    }
}

/// A number written as the emoji short-codes of its decimal digits.
pub open spec fn emoji_of(n: nat) -> Seq<char>
    decreases n,
{
    if n < 10 {
        emoji_digit(n)
    } else {
        emoji_of(n / 10) + emoji_digit(n % 10)
    }
}

/// The emoji short-code of one digit.
fn emoji_digit_str(d: usize) -> (r: &'static str)
    requires
        d < 10,
    ensures
        r@ == emoji_digit(d as nat),
{
    if d == 0 {
        ":zero:"
    } else if d == 1 {
        ":one:"
    } else if d == 2 {
        ":two:"
    } else if d == 3 {
        ":three:"
    } else if d == 4 {
        ":four:"
    } else if d == 5 {
        ":five:"
    } else if d == 6 {
        ":six:"
    } else if d == 7 {
        ":seven:"
    } else if d == 8 {
        ":eight:"
    } else {
        ":nine:"
    }
}

/// Write a number as the emoji short-codes of its decimal digits, most
/// significant first.
pub fn number_to_emoji(number: usize) -> (r: String)
    ensures
        r@ == emoji_of(number as nat),
    decreases number,
{
    if number < 10 {
        String::from_str(emoji_digit_str(number))
    } else {
        proof {
            assert(number / 10 < number) by (nonlinear_arith)
                requires
                    number >= 10,
            ;
        }
        let mut s = number_to_emoji(number / 10);
        s.append(emoji_digit_str(number % 10));
        s
    }
}

/// The words joined with single spaces, in order.
pub open spec fn joined_words(ws: Seq<String>) -> Seq<char>
    decreases ws.len(),
{
    if ws.len() == 0 {
        Seq::empty()
    } else if ws.len() == 1 {
        ws[0]@
    } else {
        joined_words(ws.drop_last()) + " "@ + ws.last()@
    }
}

/// Join the words of a command's free-text arguments with single spaces.
pub fn join_words(words: &Vec<String>) -> (r: String)
    ensures
        r@ == joined_words(words@),
{
    let mut r = String::new();
    let mut i: usize = 0;
    while i < words.len()
        invariant
            i <= words@.len(),
            r@ == joined_words(words@.subrange(0, i as int)),
        decreases words@.len() - i,
    {
        proof {
            assert(words@.subrange(0, i + 1).drop_last() =~= words@.subrange(0, i as int));
        }
        if i > 0 {
            r.append(" ");
        }
        r.append(words[i].as_str());
        i = i + 1;
    }
    proof {
        assert(words@.subrange(0, words@.len() as int) =~= words@);
    }
    r
}

/// How many queue entries one queue page shows.
pub open spec fn page_size() -> nat {
    10
}

/// The window of queue positions page `page` shows, as `(start, end)`:
/// pages number from 1, ten entries each, and a page past the end falls
/// back to the window holding only the last entry.
pub open spec fn page_bounds(len: nat, page: nat) -> (int, int) {
    let wanted = (if page <= 1 {
        0
    } else {
        (page - 1) * page_size()
    }) as nat;
    let start = if wanted >= len {
        if len == 0 {
            0
        } else {
            (len - 1) as nat
        }
    } else {
        wanted
    };
    let end = if start + page_size() <= len {
        (start + page_size()) as nat
    } else {
        len
    };
    (start as int, end as int)
}

/// The window of queue positions to show for page `page` of a queue of
/// `len` entries.
pub fn queue_page_bounds(len: usize, page: usize) -> (r: (usize, usize))
    ensures
        (r.0 as int, r.1 as int) == page_bounds(len as nat, page as nat),
        r.0 <= r.1 <= len,
{
    let p0: usize = if page <= 1 {
        0
    } else {
        page - 1
    };
    let start: usize = if p0 > len / 10 {
        if len == 0 {
            0
        } else {
            len - 1
        }
    } else {
        proof {
            assert(p0 * 10 <= (len / 10) * 10 <= len) by (nonlinear_arith)
                requires
                    p0 <= len / 10,
            ;
        }
        let wanted = p0 * 10;
        if wanted >= len {
            if len == 0 {
                0
            } else {
                len - 1
            }
        } else {
            wanted
        }
    };
    proof {
        assert(p0 > len / 10 ==> p0 * 10 >= len) by (nonlinear_arith)
            requires
                len >= 0,
        ;
    }
    let end: usize = if len >= 10 && start <= len - 10 {
        start + 10
    } else {
        len
    };
    (start, end)
}

/// What the uwu transform returns for a given text; its generator is
/// seeded with a fixed constant, so the result is a function of the text
/// alone.
pub uninterp spec fn uwu_of(s: Seq<char>) -> Seq<char>;

/// Relies on uwuifier's `uwuify_str_sse` (of the uwuify package): its
/// generator is seeded with a fixed constant, so the result depends on the
/// text alone.  It aborts on processors without the vector extension it
/// needs, independent of the text.
#[verifier::external_body]
fn uwuify_text(s: &String) -> (r: String)
    ensures
        r@ == uwu_of(s@),
{
    uwuifier::uwuify_str_sse(s.as_str())
}

/// How many times the wake-up nudge bounces a member between channels:
/// the requested count, two by default, kept between one and five.
pub fn wakeup_bounce_count(requested: Option<usize>) -> (r: usize)
    ensures
        r == (match requested {
            Some(c) => if c < 1 {
                1int
            } else if c > 5 {
                5int
            } else {
                c as int
            },
            None => 2int,
        }),
{
    let c = match requested {
        Some(c) => c,
        None => 2,
    };
    if c < 1 {
        1
    } else if c > 5 {
        5
    } else {
        c
    }
}

/// The uwu transform of a command's free-text arguments, joined with
/// single spaces.
pub fn uwu_text(words: &Vec<String>) -> (r: String)
    ensures
        r@ == uwu_of(joined_words(words@)),
{
    let joined = join_words(words);
    uwuify_text(&joined)
}

} // verus!
