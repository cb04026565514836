//! The system instruction that goes with every prompt.

use vstd::prelude::*;
use vstd::string::StringExecFns;
use crate::text::{lines, lines_of, replace, replaced, shuffle, texts};

verus! {

/// The list that stands for `words` in the system instruction: one line for
/// each word, a dash and a blank before it.
pub open spec fn word_list(words: Seq<Seq<char>>) -> Seq<char>
    decreases words.len(),
{
    if words.len() == 0 {
        Seq::empty()
    } else {
        word_list(words.drop_last()) + "- "@ + words.last() + "\n"@
    }
}

/// The system instruction made of `template` and `words`: the template with
/// the list of the words wherever it says `{WORDS}`.
pub open spec fn filled_prompt(template: Seq<char>, words: Seq<Seq<char>>) -> Seq<char> {
    replaced(template, "{WORDS}"@, word_list(words))
}

/// The list that stands for `words` in the system instruction.
pub fn make_word_list(words: &Vec<&str>) -> (res: String)
    ensures
        res@ == word_list(texts(words@)),
{
    let mut list = String::new();
    let mut i: usize = 0;
    assert(texts(words@).take(0) =~= Seq::<Seq<char>>::empty());
    while i < words.len()
        invariant
            i <= words.len(),
            list@ == word_list(texts(words@).take(i as int)),
        decreases words.len() - i,
    {
        let ghost before = list@;
        list.append("- ");
        list.append(words[i]);
        list.append("\n");
        proof {
            let all = texts(words@);
            assert(all.take(i + 1).drop_last() =~= all.take(i as int));
            assert(all.take(i + 1).last() == words[i as int]@);
            assert(list@ =~= before + "- "@ + words[i as int]@ + "\n"@);
        }
        i = i + 1;
    }
    assert(texts(words@).take(i as int) =~= texts(words@));
    list
}

/// The system instruction made of `template` and `words`, the words in the
/// order given.
pub fn fill_prompt(template: &str, words: &Vec<&str>) -> (res: String)
    ensures
        res@ == filled_prompt(template@, texts(words@)),
{
    let list = make_word_list(words);
    proof {
        reveal_strlit("{WORDS}");
    }
    replace(template, "{WORDS}", list.as_str())
}

/// The system instruction for one call of the model: `template` with the
/// lines of `words`, in an order that chance picks anew each time, wherever
/// it says `{WORDS}`.
pub fn system_prompt(template: &str, words: &str) -> (res: String)
    ensures
        exists|order: Seq<Seq<char>>|
            order.to_multiset() == lines_of(words@).to_multiset() && res@ == #[trigger] filled_prompt(
                template@,
                order,
            ),
{
    let mut words = lines(words);
    shuffle(&mut words);
    fill_prompt(template, &words)
}

} // verus!
