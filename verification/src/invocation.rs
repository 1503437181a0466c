//! Planned process invocations.
//!
//! A command template is a space-separated word list; its first word is the
//! program. A template may contain the placeholder marker `{}` as a word:
//! packages are inserted there, or appended after the whole template when no
//! marker is present.

use vstd::prelude::*;
use crate::text::{clone_strings, split, split_chars};

verus! {

/// Spec-level mirror of [`Invocation`].
pub ghost struct InvocationV {
    pub program: Seq<char>,
    pub args: Seq<Seq<char>>,
}

/// One planned process invocation: the program and its arguments, in order.
/// The surrounding program spawns it; nothing here touches the system.
#[derive(Debug, PartialEq, Eq)]
pub struct Invocation {
    pub program: String,
    pub args: Vec<String>,
}

impl View for Invocation {
    type V = InvocationV;

    open spec fn view(&self) -> InvocationV {
        InvocationV { program: self.program@, args: self.args.deep_view() }
    }
}

impl DeepView for Invocation {
    type V = InvocationV;

    open spec fn deep_view(&self) -> InvocationV {
        self@
    }
}

impl Clone for Invocation {
    fn clone(&self) -> (r: Self)
        ensures
            r@ == self@,
    {
        Invocation { program: self.program.clone(), args: clone_strings(&self.args) }
    }
}

/// The words of a command template: the template split at single spaces.
pub open spec fn template_words(t: Seq<char>) -> Seq<Seq<char>> {
    split_chars(t, ' ')
}

/// The placeholder marker: a word equal to `{}`.
pub open spec fn marker() -> Seq<char> {
    "{}"@
}

/// Whether some word of the template is the placeholder marker.
pub open spec fn contains_marker(words: Seq<Seq<char>>) -> bool {
    exists|i: int| 0 <= i < words.len() && words[i] == marker()
}

/// Each marker word replaced by the whole package list; other words kept.
pub open spec fn substitute_words(
    words: Seq<Seq<char>>,
    packages: Seq<Seq<char>>,
) -> Seq<Seq<char>>
    decreases words.len(),
{
    if words.len() == 0 {
        Seq::empty()
    } else if words[0] == marker() {
        packages + substitute_words(words.drop_first(), packages)
    } else {
        seq![words[0]] + substitute_words(words.drop_first(), packages)
    }
}

/// The word list a tool invocation is built from: packages inserted at the
/// marker when the template has one, else appended after the template.
pub open spec fn words_with_packages(
    words: Seq<Seq<char>>,
    packages: Seq<Seq<char>>,
) -> Seq<Seq<char>> {
    if contains_marker(words) {
        substitute_words(words, packages)
    } else {
        words + packages
    }
}

/// The invocation a word list denotes: the first word is the program, the
/// rest are its arguments. An empty list denotes the empty program.
pub open spec fn invocation_of_words(words: Seq<Seq<char>>) -> InvocationV {
    if words.len() == 0 {
        InvocationV { program: Seq::empty(), args: Seq::empty() }
    } else {
        InvocationV { program: words[0], args: words.drop_first() }
    }
}

/// Substitution distributes over concatenation of word lists.
pub proof fn lemma_substitute_append(
    w1: Seq<Seq<char>>,
    w2: Seq<Seq<char>>,
    packages: Seq<Seq<char>>,
)
    ensures
        substitute_words(w1 + w2, packages) == substitute_words(w1, packages) + substitute_words(
            w2,
            packages,
        ),
    decreases w1.len(),
{
    if w1.len() == 0 {
        assert(w1 + w2 =~= w2);
        assert(substitute_words(w1, packages) + substitute_words(w2, packages) =~= substitute_words(
            w2,
            packages,
        ));
    } else {
        assert((w1 + w2)[0] == w1[0]);
        assert((w1 + w2).drop_first() =~= w1.drop_first() + w2);
        lemma_substitute_append(w1.drop_first(), w2, packages);
        if w1[0] == marker() {
            assert(packages + (substitute_words(w1.drop_first(), packages) + substitute_words(
                w2,
                packages,
            )) =~= (packages + substitute_words(w1.drop_first(), packages)) + substitute_words(
                w2,
                packages,
            ));
        } else {
            assert(seq![w1[0]] + (substitute_words(w1.drop_first(), packages) + substitute_words(
                w2,
                packages,
            )) =~= (seq![w1[0]] + substitute_words(w1.drop_first(), packages)) + substitute_words(
                w2,
                packages,
            ));
        }
    }
}

impl Invocation {
    /// Parses a command line into its program — the first space-separated
    /// word — and its arguments.
    pub fn from_string(cmd: &str) -> (r: Invocation)
        ensures
            r@ == invocation_of_words(template_words(cmd@)),
    {
        let words = split(cmd, ' ');
        invocation_of_words_exec(words)
    }
}

/// Builds the invocation a word list denotes.
pub fn invocation_of_words_exec(words: Vec<String>) -> (r: Invocation)
    ensures
        r@ == invocation_of_words(words.deep_view()),
{
    let ghost words_v = words.deep_view();
    let mut words = words;
    if words.len() == 0 {
        proof {
            assert(words.deep_view() =~= Seq::<Seq<char>>::empty());
        }
        return Invocation { program: String::new(), args: words };
    }
    let program = words.remove(0);
    proof {
        assert(words.deep_view() =~= words_v.drop_first());
    }
    Invocation { program, args: words }
}

/// Inserts the packages into the template's word list: at the marker when
/// one is present, else appended at the end.
pub fn build_words(words: &Vec<String>, packages: &Vec<String>) -> (r: Vec<String>)
    ensures
        r.deep_view() == words_with_packages(words.deep_view(), packages.deep_view()),
{
    let ghost words_v = words.deep_view();
    let ghost packages_v = packages.deep_view();
    let marker_word: String = "{}".to_owned();

    let mut has_marker = false;
    let mut i: usize = 0;
    while i < words.len()
        invariant
            i <= words@.len(),
            words_v == words.deep_view(),
            marker_word@ == marker(),
            has_marker == exists|j: int| 0 <= j < i && words_v[j] == marker(),
        decreases words@.len() - i,
    {
        if words[i] == marker_word {
            assert(words_v[i as int] == marker());
            has_marker = true;
        }
        i += 1;
    }

    if !has_marker {
        assert(!contains_marker(words_v));
        let mut r = clone_strings(words);
        let mut tail = clone_strings(packages);
        r.append(&mut tail);
        proof {
            assert(r.deep_view() =~= words_v + packages_v);
        }
        return r;
    }

    let mut r: Vec<String> = Vec::new();
    let mut i: usize = 0;
    proof {
        assert(words_v.take(0) =~= Seq::<Seq<char>>::empty());
        assert(r.deep_view() =~= substitute_words(words_v.take(0), packages_v));
    }
    while i < words.len()
        invariant
            i <= words@.len(),
            words_v == words.deep_view(),
            packages_v == packages.deep_view(),
            marker_word@ == marker(),
            r.deep_view() == substitute_words(words_v.take(i as int), packages_v),
        decreases words@.len() - i,
    {
        let ghost done = r.deep_view();
        proof {
            assert(words_v.take(i + 1) =~= words_v.take(i as int) + seq![words_v[i as int]]);
            lemma_substitute_append(words_v.take(i as int), seq![words_v[i as int]], packages_v);
            assert(seq![words_v[i as int]].drop_first() =~= Seq::<Seq<char>>::empty());
            assert(substitute_words(Seq::<Seq<char>>::empty(), packages_v)
                =~= Seq::<Seq<char>>::empty());
        }
        if words[i] == marker_word {
            assert(words_v[i as int] == marker());
            let mut tail = clone_strings(packages);
            r.append(&mut tail);
            proof {
                assert(packages_v + Seq::<Seq<char>>::empty() =~= packages_v);
                assert(r.deep_view() =~= done + packages_v);
            }
        } else {
            assert(words_v[i as int] != marker());
            r.push(words[i].clone());
            proof {
                assert(seq![words_v[i as int]] + Seq::<Seq<char>>::empty() =~= seq![
                    words_v[i as int],
                ]);
                assert(r.deep_view() =~= done + seq![words_v[i as int]]);
            }
        }
        i += 1;
    }
    proof {
        assert(words_v.take(words_v.len() as int) =~= words_v);
    }
    r
}

} // verus!
