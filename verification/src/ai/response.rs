//! How an answer of the model is written to the channel.

use vstd::prelude::*;
use vstd::string::StringExecFns;
use crate::ai::{LlmResponse, Usage};
use crate::text::{
    decimal, decimal_string, lines, lines_of, split_whitespace, texts, trim, trimmed, utf8_len,
    words_of,
};

verus! {

/// A line of more bytes than this is broken into shorter ones.
pub const LONG_LINE: usize = 100;

/// A line that is being filled ends once it has more bytes than this.
pub const LINE_WIDTH: usize = 70;

/// The note that tells how many tokens an answer took.
pub open spec fn token_note(usage: Usage) -> Seq<char> {
    "-# Generated "@ + decimal(usage.completion_tokens as nat) + " tokens"@
}

/// The text of the message that carries an answer: the answer as it is, or,
/// where its token count is known, the answer without the whitespace around
/// it and the note of the count on a line of its own.
pub open spec fn message_text(response: Seq<char>, usage: Option<Usage>) -> Seq<char> {
    match usage {
        Some(usage) => trimmed(response) + "\n"@ + token_note(usage),
        None => response,
    }
}

/// What filling lines with `words` gives, where `line` is the line begun so
/// far: each word goes to the end of the line; a line that has grown beyond
/// `LINE_WIDTH` bytes ends there, else a blank follows the word.
pub open spec fn wrap_words(words: Seq<Seq<char>>, line: Seq<char>) -> Seq<char>
    decreases words.len(),
{
    if words.len() == 0 {
        line
    } else {
        let longer = line + words[0];
        if utf8_len(longer) > LINE_WIDTH {
            longer + "\n"@ + wrap_words(words.drop_first(), Seq::empty())
        } else {
            wrap_words(words.drop_first(), longer + " "@)
        }
    }
}

/// A line as the attachment holds it: broken into shorter lines where it is
/// longer than `LONG_LINE` bytes, and without whitespace at either end.
pub open spec fn wrapped_line(line: Seq<char>) -> Seq<char> {
    if utf8_len(line) > LONG_LINE {
        trimmed(wrap_words(words_of(line), Seq::empty()))
    } else {
        trimmed(line)
    }
}

/// The lines of a text as the attachment holds them, each ended by a line
/// feed.
pub open spec fn wrapped_lines(lines: Seq<Seq<char>>) -> Seq<char>
    decreases lines.len(),
{
    if lines.len() == 0 {
        Seq::empty()
    } else {
        wrapped_lines(lines.drop_last()) + wrapped_line(lines.last()) + "\n"@
    }
}

/// The text of the attachment that carries an answer which was refused as a
/// message.
pub open spec fn word_wrapped(response: Seq<char>) -> Seq<char> {
    wrapped_lines(lines_of(response))
}

/// What to send to the channel next.
#[derive(Debug, PartialEq, Eq)]
pub enum FollowUp {
    /// A message with this text.
    Message(String),
    /// A file of this name and content, with a message beside it if there is
    /// one.
    File { name: &'static str, text: String, content: Option<String> },
}

/// A follow-up as contracts see it.
pub enum FollowUpView {
    Message(Seq<char>),
    File { name: Seq<char>, text: Seq<char>, content: Option<Seq<char>> },
}

impl View for FollowUp {
    type V = FollowUpView;

    open spec fn view(&self) -> FollowUpView {
        match self {
            FollowUp::Message(text) => FollowUpView::Message(text@),
            FollowUp::File { name, text, content } => FollowUpView::File {
                name: name@,
                text: text@,
                content: match content {
                    Some(c) => Some(c@),
                    None => None,
                },
            },
        }
    }
}

/// The note that tells how many tokens an answer took.
pub fn make_token_note(usage: &Usage) -> (res: String)
    ensures
        res@ == token_note(*usage),
{
    let mut note = String::from_str("-# Generated ");
    note.append(decimal_string(usage.completion_tokens).as_str());
    note.append(" tokens");
    note
}

/// Fills lines with the words of `line`, as `wrap_words` says.
pub fn wrap_line(line: &str) -> (res: String)
    ensures
        res@ == wrap_words(words_of(line@), Seq::empty()),
{
    let words = split_whitespace(line);
    let mut done = String::new();
    let mut current = String::new();
    let mut i: usize = 0;
    assert(texts(words@).skip(0) =~= texts(words@));
    while i < words.len()
        invariant
            i <= words.len(),
            texts(words@) == words_of(line@),
            done@ + wrap_words(texts(words@).skip(i as int), current@) == wrap_words(
                words_of(line@),
                Seq::empty(),
            ),
        decreases words.len() - i,
    {
        let ghost rest = texts(words@).skip(i as int);
        let ghost before = current@;
        let ghost settled = done@;
        assert(rest[0] == words[i as int]@);
        assert(rest.drop_first() =~= texts(words@).skip(i + 1));
        current.append(words[i]);
        let ghost longer = current@;
        assert(longer == before + rest[0]);
        let filled = current.as_str().as_bytes().len();
        assert(filled == utf8_len(longer));
        if filled > LINE_WIDTH {
            current.append("\n");
            done.append(current.as_str());
            current = String::new();
            assert(wrap_words(rest, before) == longer + "\n"@ + wrap_words(
                rest.drop_first(),
                Seq::empty(),
            ));
            assert(done@ + wrap_words(rest.drop_first(), current@) =~= settled + wrap_words(
                rest,
                before,
            ));
        } else {
            current.append(" ");
            assert(wrap_words(rest, before) == wrap_words(rest.drop_first(), longer + " "@));
        }
        i = i + 1;
    }
    done.append(current.as_str());
    done
}

/// The text of the attachment for `response`.
pub fn wrap_text(response: &str) -> (res: String)
    ensures
        res@ == word_wrapped(response@),
{
    let all = lines(response);
    let mut out = String::new();
    let mut i: usize = 0;
    assert(texts(all@).take(0) =~= Seq::<Seq<char>>::empty());
    while i < all.len()
        invariant
            i <= all.len(),
            out@ == wrapped_lines(texts(all@).take(i as int)),
        decreases all.len() - i,
    {
        let ghost before = out@;
        let line = all[i];
        let bytes = line.as_bytes().len();
        assert(bytes == utf8_len(line@));
        if bytes > LONG_LINE {
            let wrapped = wrap_line(line);
            out.append(trim(wrapped.as_str()));
        } else {
            out.append(trim(line));
        }
        assert(out@ == before + wrapped_line(line@));
        out.append("\n");
        proof {
            let views = texts(all@);
            assert(views.take(i + 1).drop_last() =~= views.take(i as int));
            assert(views.take(i + 1).last() == line@);
        }
        i = i + 1;
    }
    assert(texts(all@).take(i as int) =~= texts(all@));
    out
}

impl LlmResponse {
    /// What to send for this answer.
    ///
    /// First, while nothing was `refused`, a message with the answer and, if
    /// it is known, the token count. Once the platform has refused that
    /// message: the answer as a file named `raw.txt`, its long lines broken,
    /// with the token count beside it if it is known. There is no third try.
    pub open spec fn spec_follow_up(self, refused: bool) -> FollowUpView {
        if refused {
            FollowUpView::File {
                name: "raw.txt"@,
                text: word_wrapped(self.response@),
                content: match self.usage {
                    Some(usage) => Some(token_note(usage)),
                    None => None,
                },
            }
        } else {
            FollowUpView::Message(message_text(self.response@, self.usage))
        }
    }

    /// What to send after the platform has refused `refusals` forms of this
    /// answer: the message first, the file after one refusal, and nothing
    /// more after two, when the command has failed.
    pub open spec fn spec_next_follow_up(self, refusals: usize) -> Option<FollowUpView> {
        if refusals == 0 {
            Some(self.spec_follow_up(false))
        } else if refusals == 1 {
            Some(self.spec_follow_up(true))
        } else {
            None
        }
    }

    /// What to send next for this answer, if anything, after the platform
    /// has refused `refusals` forms of it. `None` says that the answer could
    /// not be delivered.
    pub fn next_follow_up(&self, refusals: usize) -> (res: Option<FollowUp>)
        ensures
            match res {
                Some(follow_up) => self.spec_next_follow_up(refusals) == Some(follow_up@),
                None => self.spec_next_follow_up(refusals) is None,
            },
    {
        if refusals == 0 {
            Some(self.send_follow_up(false))
        } else if refusals == 1 {
            Some(self.send_follow_up(true))
        } else {
            None
        }
    }

    /// What to send for this answer, given whether the platform has
    /// `refused` the answer as a message.
    pub fn send_follow_up(&self, refused: bool) -> (res: FollowUp)
        ensures
            res@ == self.spec_follow_up(refused),
    {
        if refused {
            FollowUp::File {
                name: "raw.txt",
                text: wrap_text(self.response.as_str()),
                content: match &self.usage {
                    Some(usage) => Some(make_token_note(usage)),
                    None => None,
                },
            }
        } else {
            match &self.usage {
                Some(usage) => {
                    let mut text = String::from_str(trim(self.response.as_str()));
                    text.append("\n");
                    text.append(make_token_note(usage).as_str());
                    FollowUp::Message(text)
                },
                None => FollowUp::Message(self.response.clone()),
            }
        }
    }
}

} // verus!
