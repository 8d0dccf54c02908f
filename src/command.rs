//! Splitting a command line into an executable and its arguments.
use vstd::prelude::*;
use vstd::string::*;

verus! {

/// Unicode `White_Space`: the characters that separate words of a command.
pub open spec fn is_whitespace(c: char) -> bool {
    let v = c as u32;
    (0x9 <= v && v <= 0xd) || v == 0x20 || v == 0x85 || v == 0xa0 || v == 0x1680 || (0x2000 <= v
        && v <= 0x200a) || v == 0x2028 || v == 0x2029 || v == 0x202f || v == 0x205f || v == 0x3000
}

/// A command holds nothing but whitespace (the empty command included).
pub open spec fn is_blank(s: Seq<char>) -> bool {
    forall|i: int| 0 <= i < s.len() ==> is_whitespace(#[trigger] s[i])
}

/// The words of `s` when the word being read so far is `cur`.
pub open spec fn words_from(s: Seq<char>, cur: Seq<char>) -> Seq<Seq<char>>
    decreases s.len(),
{
    if s.len() == 0 {
        if cur.len() == 0 {
            Seq::empty()
        } else {
            seq![cur]
        }
    } else if is_whitespace(s[0]) {
        if cur.len() == 0 {
            words_from(s.drop_first(), cur)
        } else {
            seq![cur] + words_from(s.drop_first(), Seq::empty())
        }
    } else {
        words_from(s.drop_first(), cur.push(s[0]))
    }
}

/// The maximal runs of non-whitespace characters of `s`, in order.
pub open spec fn words(s: Seq<char>) -> Seq<Seq<char>> {
    words_from(s, Seq::empty())
}

/// An executable and the arguments handed to it.
pub struct CommandLine {
    pub program: String,
    pub args: Vec<String>,
}

impl CommandLine {
    /// The words of the command: the executable first, then each argument.
    pub open spec fn view(&self) -> Seq<Seq<char>> {
        seq![self.program@] + self.args@.map_values(|a: String| a@)
    }
}

/// Whether `c` separates words.
pub fn char_is_whitespace(c: char) -> (r: bool)
    ensures
        r == is_whitespace(c),
{
    let v = c as u32;
    (0x9 <= v && v <= 0xd) || v == 0x20 || v == 0x85 || v == 0xa0 || v == 0x1680 || (0x2000 <= v
        && v <= 0x200a) || v == 0x2028 || v == 0x2029 || v == 0x202f || v == 0x205f || v == 0x3000
}

proof fn lemma_words_from_empty_iff(s: Seq<char>, cur: Seq<char>)
    ensures
        words_from(s, cur).len() == 0 <==> (cur.len() == 0 && is_blank(s)),
    decreases s.len(),
{
    if s.len() > 0 {
        lemma_words_from_empty_iff(s.drop_first(), cur.push(s[0]));
        lemma_words_from_empty_iff(s.drop_first(), cur);
        lemma_words_from_empty_iff(s.drop_first(), Seq::empty());
        assert(is_blank(s) <==> (is_whitespace(s[0]) && is_blank(s.drop_first()))) by {
            if is_whitespace(s[0]) && is_blank(s.drop_first()) {
                assert forall|i: int| 0 <= i < s.len() implies is_whitespace(#[trigger] s[i]) by {
                    if i > 0 {
                        assert(s[i] == s.drop_first()[i - 1]);
                    }
                }
            }
            if is_blank(s) {
                assert forall|i: int| 0 <= i < s.len() - 1 implies is_whitespace(
                    #[trigger] s.drop_first()[i],
                ) by {
                    assert(s.drop_first()[i] == s[i + 1]);
                }
            }
        }
    }
}

/// A command has no words exactly when it is blank.
pub proof fn lemma_words_empty_iff_blank(s: Seq<char>)
    ensures
        words(s).len() == 0 <==> is_blank(s),
{
    lemma_words_from_empty_iff(s, Seq::empty());
}

/// Splits `command` at whitespace; `None` when it holds no word.
pub fn parse_command(command: &str) -> (r: Option<CommandLine>)
    ensures
        r is None <==> is_blank(command@),
        r matches Some(cl) ==> cl.view() == words(command@),
{
    let ghost s = command@;
    let n = command.unicode_len();
    let mut acc: Vec<String> = Vec::new();
    let ghost mut toks: Seq<Seq<char>> = Seq::empty();
    let ghost mut cur: Seq<char> = Seq::empty();
    let mut in_word = false;
    let mut start: usize = 0;
    let mut i: usize = 0;
    assert(s.subrange(0, n as int) =~= s);
    assert(toks + words(s) =~= words(s));
    while i < n
        invariant
            n == s.len(),
            s == command@,
            i <= n,
            start <= i,
            acc@.map_values(|a: String| a@) == toks,
            in_word ==> cur == s.subrange(start as int, i as int) && cur.len() > 0,
            !in_word ==> cur.len() == 0,
            toks + words_from(s.subrange(i as int, n as int), cur) == words(s),
        decreases n - i,
    {
        let c = command.get_char(i);
        let ghost rest = s.subrange(i as int, n as int);
        assert(rest[0] == c);
        assert(rest.drop_first() =~= s.subrange(i + 1, n as int));
        if char_is_whitespace(c) {
            if in_word {
                let w = String::from_str(command.substring_char(start, i));
                proof {
                    let next = words_from(s.subrange(i + 1, n as int), Seq::empty());
                    assert(toks + (seq![cur] + next) =~= toks.push(cur) + next);
                    toks = toks.push(cur);
                    cur = Seq::empty();
                }
                acc.push(w);
                assert(acc@.map_values(|a: String| a@) =~= toks);
                in_word = false;
            }
        } else {
            if !in_word {
                start = i;
                in_word = true;
            }
            proof {
                cur = cur.push(c);
            }
            assert(cur =~= s.subrange(start as int, i + 1));
        }
        i = i + 1;
    }
    if in_word {
        let w = String::from_str(command.substring_char(start, n));
        proof {
            assert(toks + seq![cur] =~= toks.push(cur));
            toks = toks.push(cur);
        }
        acc.push(w);
        assert(acc@.map_values(|a: String| a@) =~= toks);
    } else {
        assert(toks + Seq::<Seq<char>>::empty() =~= toks);
    }
    proof {
        lemma_words_empty_iff_blank(s);
    }
    if acc.len() == 0 {
        None
    } else {
        let program = acc.remove(0);
        let cl = CommandLine { program, args: acc };
        assert(cl.view() =~= toks);
        Some(cl)
    }
}

} // verus!
