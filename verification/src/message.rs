use vstd::prelude::*;

verus! {

/// `words` joined with `sep` between each two of them.
pub open spec fn joined(words: Seq<Seq<char>>, sep: Seq<char>) -> Seq<char>
    decreases words.len(),
{
    if words.len() == 0 {
        Seq::empty()
    } else if words.len() == 1 {
        words[0]
    } else {
        joined(words.drop_last(), sep) + sep + words.last()
    }
}

/// The number of characters in all of `words`.
pub open spec fn total_len(words: Seq<Seq<char>>) -> nat
    decreases words.len(),
{
    if words.len() == 0 {
        0
    } else {
        total_len(words.drop_last()) + words.last().len()
    }
}

/// Joining keeps every word, whatever it holds: the result is as long as all
/// the words together plus one separator between each two of them.
pub proof fn lemma_joined_len(words: Seq<Seq<char>>, sep: Seq<char>)
    requires
        words.len() > 0,
    ensures
        joined(words, sep).len() == total_len(words) + (words.len() - 1) * sep.len(),
    decreases words.len(),
{
    if words.len() > 1 {
        let rest = words.drop_last();
        lemma_joined_len(rest, sep);
        let n: int = rest.len() as int;
        let l: int = sep.len() as int;
        assert((n - 1) * l + l == n * l) by (nonlinear_arith);
        assert(joined(words, sep) == joined(rest, sep) + sep + words.last());
        assert(total_len(words) == total_len(rest) + words.last().len());
    } else {
        assert(words.drop_last().len() == 0);
        assert(total_len(words) == total_len(words.drop_last()) + words.last().len());
        assert(words.last() == words[0]);
    }
}

/// Joining two nonempty runs of words gives the two joined runs with one
/// separator between them, so every word keeps its place.
pub proof fn lemma_joined_concat(a: Seq<Seq<char>>, b: Seq<Seq<char>>, sep: Seq<char>)
    requires
        a.len() > 0,
        b.len() > 0,
    ensures
        joined(a + b, sep) == joined(a, sep) + sep + joined(b, sep),
    decreases b.len(),
{
    if b.len() == 1 {
        assert((a + b).drop_last() =~= a);
        assert((a + b).last() == b[0]);
        assert(joined(a + b, sep) =~= joined(a, sep) + sep + joined(b, sep));
    } else {
        lemma_joined_concat(a, b.drop_last(), sep);
        assert((a + b).drop_last() =~= a + b.drop_last());
        assert((a + b).last() == b.last());
        assert(joined(a + b, sep) =~= joined(a, sep) + sep + joined(b, sep));
    }
}

/// The line printed when the callback of a command panics:
/// `Error in command '/<words joined by spaces>'`.
pub fn command_error_message(words: &Vec<String>) -> (message: String)
    ensures
        message@ == "Error in command '/"@ + joined(words@.map_values(|w: String| w@), " "@)
            + "'"@,
{
    let ghost views = words@.map_values(|w: String| w@);
    let mut message = String::from_str("Error in command '/");
    let ghost head = message@;
    let mut i: usize = 0;
    while i < words.len()
        invariant
            i <= words.len(),
            views == words@.map_values(|w: String| w@),
            message@ == head + joined(views.take(i as int), " "@),
        decreases words.len() - i,
    {
        assert(views.take(i + 1).drop_last() =~= views.take(i as int));
        assert(views.take(i + 1).last() == words@[i as int]@);
        if i != 0 {
            message.append(" ");
        } else {
            assert(views.take(1) =~= seq![words@[0]@]);
        }
        message.append(words[i].as_str());
        proof {
            if i == 0 {
                assert(joined(views.take(0), " "@) =~= Seq::<char>::empty());
            }
        }
        i = i + 1;
    }
    assert(views.take(words.len() as int) =~= views);
    message.append("'");
    message
}

/// The line printed after it when the panic carried a text message:
/// `Error message: <message>`.
pub fn panic_message_line(message: &str) -> (line: String)
    ensures
        line@ == "Error message: "@ + message@,
{
    let mut line = String::from_str("Error message: ");
    line.append(message);
    line
}

/// The line printed when a reply listener is handed a line that is not the
/// reply it listens for: `Invalid response '<line>'`.
pub fn invalid_response_message(line: &str) -> (message: String)
    ensures
        message@ == "Invalid response '"@ + line@ + "'"@,
{
    let mut message = String::from_str("Invalid response '");
    message.append(line);
    message.append("'");
    message
}

} // verus!
