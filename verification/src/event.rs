use chrono::{DateTime, Utc};
use vstd::prelude::*;

use crate::hook::{spec_eat_code, EatMode};

verus! {

/// HexChat hands a hook at most this many words (`word[0]` is never used).
pub open spec fn word_slots() -> int {
    32
}

/// The present entries of `slots`, in order, as text.
pub open spec fn present(slots: Seq<Option<String>>) -> Seq<Seq<char>>
    decreases slots.len(),
{
    if slots.len() == 0 {
        Seq::empty()
    } else {
        let rest = present(slots.drop_last());
        match slots.last() {
            Some(w) => rest.push(w@),
            None => rest,
        }
    }
}

/// The words a callback is given: the present entries among `word[1]` to
/// `word[31]`, so that the event's `$1` is the first of them.
pub open spec fn hook_words(word: Seq<Option<String>>) -> Seq<Seq<char>> {
    if word.len() <= 1 {
        Seq::empty()
    } else if word.len() <= word_slots() {
        present(word.subrange(1, word.len() as int))
    } else {
        present(word.subrange(1, word_slots()))
    }
}

/// There are never more present entries than entries.
proof fn lemma_present_len(slots: Seq<Option<String>>)
    ensures
        present(slots).len() <= slots.len(),
    decreases slots.len(),
{
    if slots.len() > 0 {
        lemma_present_len(slots.drop_last());
    }
}

/// One past the last slot a callback's words are taken from.
pub open spec fn word_end(word: Seq<Option<String>>) -> int {
    if word.len() < word_slots() {
        word.len() as int
    } else {
        word_slots()
    }
}

/// How many of `word[1]` to `word[i - 1]` are present (not null).
pub open spec fn present_before(word: Seq<Option<String>>, i: int) -> nat
    decreases i,
{
    if i <= 1 {
        0
    } else {
        present_before(word, i - 1) + (if word[i - 1] is Some {
            1nat
        } else {
            0nat
        })
    }
}

/// The words of the first `e` slots, counted and placed.
proof fn lemma_present_prefix(word: Seq<Option<String>>, e: int)
    requires
        1 <= e <= word.len(),
    ensures
        present(word.subrange(1, e)).len() == present_before(word, e),
        forall|j: int|
            1 <= j < e && #[trigger] word[j] is Some ==> present(word.subrange(1, e))[present_before(
                word,
                j,
            ) as int] == word[j]->Some_0@,
    decreases e,
{
    if e > 1 {
        lemma_present_prefix(word, e - 1);
        let sub = word.subrange(1, e);
        assert(sub.drop_last() =~= word.subrange(1, e - 1));
        assert(sub.last() == word[e - 1]);
        assert forall|j: int|
            1 <= j < e && #[trigger] word[j] is Some implies present(sub)[present_before(
                word,
                j,
            ) as int] == word[j]->Some_0@ by {
            if j < e - 1 {
                lemma_present_before_grows(word, j + 1, e - 1);
            }
        }
    } else {
        assert(word.subrange(1, 1) =~= Seq::<Option<String>>::empty());
    }
}

/// Counting over more slots never counts fewer.
proof fn lemma_present_before_grows(word: Seq<Option<String>>, i: int, k: int)
    requires
        i <= k,
    ensures
        present_before(word, i) <= present_before(word, k),
    decreases k - i,
{
    if i < k {
        lemma_present_before_grows(word, i, k - 1);
    }
}

/// No word is dropped, altered or moved: a callback is given as many words as
/// there are present (non-null) entries among `word[1]` to
/// `word[word_end - 1]`, and the present entry at slot `j` is the word at
/// index "number of present entries before slot `j`", whatever its text
/// (empty, repeated, or starting with ':'). So `$1` is `args[0]` where
/// `word[1]` is present, and so forth.
pub proof fn lemma_every_present_word_is_given(word: Seq<Option<String>>)
    ensures
        hook_words(word).len() == present_before(word, word_end(word)),
        forall|j: int|
            1 <= j < word_end(word) && #[trigger] word[j] is Some ==> hook_words(word)[present_before(
                word,
                j,
            ) as int] == word[j]->Some_0@,
{
    if word.len() > 1 {
        lemma_present_prefix(word, word_end(word));
    }
}

/// Collects the arguments of a command, print event or server event from the
/// hook's `word` array, where `None` stands for a null entry.
pub fn collect_words(word: &Vec<Option<String>>) -> (words: Vec<String>)
    ensures
        words@.map_values(|w: String| w@) == hook_words(word@),
        words.len() < word_slots(),
        words.len() == present_before(word@, word_end(word@)),
        forall|j: int|
            1 <= j < word_end(word@) && #[trigger] word@[j] is Some ==> words@[present_before(
                word@,
                j,
            ) as int]@ == word@[j]->Some_0@,
{
    proof {
        lemma_every_present_word_is_given(word@);
    }
    let mut words: Vec<String> = Vec::new();
    if word.len() <= 1 {
        assert(words@.map_values(|w: String| w@) =~= Seq::<Seq<char>>::empty());
        return words;
    }
    let end: usize = if word.len() < 32 { word.len() } else { 32 };
    let mut i: usize = 1;
    assert(word@.subrange(1, 1) =~= Seq::<Option<String>>::empty());
    assert(words@.map_values(|w: String| w@) =~= Seq::<Seq<char>>::empty());
    while i < end
        invariant
            1 <= i <= end,
            end <= word.len(),
            end == (if word.len() < 32 { word.len() } else { 32 }),
            words@.map_values(|w: String| w@) == present(word@.subrange(1, i as int)),
        decreases end - i,
    {
        let ghost before = words@;
        assert(word@.subrange(1, i + 1).drop_last() =~= word@.subrange(1, i as int));
        assert(word@.subrange(1, i + 1).last() == word@[i as int]);
        match &word[i] {
            Some(w) => {
                let owned = w.clone();
                words.push(owned);
                assert(words@.map_values(|w: String| w@) =~= before.map_values(
                    |w: String| w@,
                ).push(owned@));
            },
            None => {},
        }
        i = i + 1;
    }
    proof {
        lemma_present_len(word@.subrange(1, i as int));
        assert(words@.map_values(|w: String| w@).len() == words.len());
        assert forall|j: int|
            1 <= j < word_end(word@) && #[trigger] word@[j] is Some implies words@[present_before(
                word@,
                j,
            ) as int]@ == word@[j]->Some_0@ by {
            lemma_present_before_grows(word@, j + 1, word_end(word@));
            assert(words@.map_values(|w: String| w@)[present_before(word@, j) as int]
                == words@[present_before(word@, j) as int]@);
        }
    }
    words
}

/// The raw IRCv3 line of a server event, or the empty string where HexChat
/// attached none.
pub fn raw_line(line: Option<String>) -> (raw: String)
    ensures
        raw@ == (match line {
            Some(l) => l@,
            None => Seq::<char>::empty(),
        }),
{
    match line {
        Some(l) => l,
        None => String::new(),
    }
}

/// The code for the callback's choice, or for `on_panic` where the callback
/// panicked (`outcome` is `None`).
fn return_code(outcome: Option<EatMode>, on_panic: EatMode) -> (code: i32)
    ensures
        code == spec_eat_code(
            match outcome {
                Some(m) => m,
                None => on_panic,
            },
        ),
{
    let mode = match outcome {
        Some(m) => m,
        None => on_panic,
    };
    crate::hook::eat_code(mode)
}

/// What a command hook returns to HexChat: the callback's choice, and
/// `EatMode::All` where the callback panicked.
pub fn command_return_code(outcome: Option<EatMode>) -> (code: i32)
    ensures
        code == spec_eat_code(
            match outcome {
                Some(m) => m,
                None => EatMode::All,
            },
        ),
{
    return_code(outcome, EatMode::All)
}

/// What a print, window, raw server, typed server or reply listener hook
/// returns to HexChat: the callback's choice, and `EatMode::NoOne` where the
/// callback panicked.
pub fn listener_return_code(outcome: Option<EatMode>) -> (code: i32)
    ensures
        code == spec_eat_code(
            match outcome {
                Some(m) => m,
                None => EatMode::NoOne,
            },
        ),
{
    return_code(outcome, EatMode::NoOne)
}

/// What a timer hook returns to HexChat whether or not the task panicked:
/// `EatMode::All`, which keeps the timer running.
pub fn timer_return_code() -> (code: i32)
    ensures
        code == spec_eat_code(EatMode::All),
{
    crate::hook::eat_code(EatMode::All)
}

/// The interval HexChat is given for a timer: the milliseconds of the
/// interval, cut down to `i32::MAX` where they do not fit.
pub fn timer_interval_ms(millis: u128) -> (ms: i32)
    ensures
        ms == (if millis > i32::MAX { i32::MAX as int } else { millis as int }),
{
    if millis > 2147483647u128 {
        i32::MAX
    } else {
        millis as i32
    }
}

/// The UNIX timestamps, in whole seconds, that chrono can hold in a
/// `DateTime<Utc>`: from -262143-01-01T00:00:00 to +262142-12-31T23:59:59.
pub open spec fn chrono_can_represent(secs: i64) -> bool {
    -8_334_601_228_800 <= secs <= 8_210_266_876_799
}

/// chrono's `DateTime::<Utc>::from_timestamp(secs, 0)`, of which only whether it
/// succeeds is handed back. Claimed: it succeeds exactly for the timestamps in
/// `chrono_can_represent`, as chrono's source bounds the day number by the
/// years -262143 to 262142 and a zero nanosecond part is always valid.
#[verifier::external_body]
fn chrono_accepts_timestamp(secs: i64) -> (accepted: bool)
    ensures
        accepted == chrono_can_represent(secs),
{
    match DateTime::<Utc>::from_timestamp(secs, 0) {
        Some(_) => true,
        None => false,
    }
}

/// Whether chrono can turn the `server_time_utc` field of an event (seconds
/// since the UNIX epoch) into the `DateTime<Utc>` a callback is given; the
/// hook cannot go on with one it cannot.
pub fn event_time_in_range(server_time_utc: i64) -> (ok: bool)
    ensures
        ok == chrono_can_represent(server_time_utc),
{
    chrono_accepts_timestamp(server_time_utc)
}

} // verus!
