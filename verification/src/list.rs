//! The list type, its view and its operations.

use crate::decimal::{decimal, to_decimal};
use vstd::prelude::*;

verus! {

/// A singly linked list of `u32` values.
pub enum List {
    /// A cell: one element, and the list that follows it.
    Cons(u32, Box<List>),
    /// The end of every list; alone, the empty list.
    Nil,
}

impl List {
    /// The elements from head to tail.
    pub open spec fn elements(&self) -> Seq<u32>
        decreases self,
    {
        match self {
            List::Cons(head, tail) => seq![*head] + tail.elements(),
            List::Nil => Seq::empty(),
        }
    }
}

impl View for List {
    type V = Seq<u32>;

    open spec fn view(&self) -> Seq<u32> {
        self.elements()
    }
}

/// The text of a list with the elements `elems`: each element in decimal
/// notation followed by a comma and a space, from head to tail, then the word
/// `Nil` for the end of the list.
pub open spec fn text_of(elems: Seq<u32>) -> Seq<char>
    decreases elems.len(),
{
    if elems.len() == 0 {
        seq!['N', 'i', 'l']
    } else {
        decimal(elems[0] as nat) + seq![',', ' '] + text_of(elems.drop_first())
    }
}

impl List {
    /// What `new` returns.
    pub open spec fn spec_new() -> List {
        List::Nil
    }

    /// What `prepend` returns.
    pub open spec fn spec_prepend(self, elem: u32) -> List {
        List::Cons(elem, Box::new(self))
    }

    /// The list after each of `elems` has been prepended to `self`, the first
    /// of them first: the last of them is the head of the result.
    pub open spec fn prepend_each(self, elems: Seq<u32>) -> List
        decreases elems.len(),
    {
        if elems.len() == 0 {
            self
        } else {
            self.prepend_each(elems.drop_last()).spec_prepend(elems.last())
        }
    }

    /// The empty list.
    #[verifier::when_used_as_spec(spec_new)]
    pub fn new() -> (list: List)
        ensures
            list == List::spec_new(),
            list@ == Seq::<u32>::empty(),
            list@.len() == 0,
    {
        List::Nil
    }

    /// The list with `elem` at its head and `self` as its tail.
    ///
    /// The list is taken by value: what the caller held is now the tail of
    /// the result.
    #[verifier::when_used_as_spec(spec_prepend)]
    pub fn prepend(self, elem: u32) -> (list: List)
        ensures
            list == self.spec_prepend(elem),
            list@ == seq![elem] + self@,
            list@.len() == self@.len() + 1,
    {
        List::Cons(elem, Box::new(self))
    }

    /// The number of elements.
    ///
    /// The count has to fit the result type. The call descends once per
    /// element, so its stack use grows with the list.
    pub fn len(&self) -> (count: u32)
        requires
            self@.len() <= u32::MAX,
        ensures
            count == self@.len(),
        decreases self,
    {
        match self {
            List::Cons(_, tail) => 1 + tail.len(),
            List::Nil => 0,
        }
    }

    /// The elements as text, from head to tail, each followed by `", "`, and
    /// `Nil` after the last: `"3, 2, 1, Nil"`, or `"Nil"` for the empty list.
    ///
    /// The call descends once per element, so its stack use grows with the
    /// list.
    pub fn stringify(&self) -> (text: String)
        ensures
            text@ == text_of(self@),
        decreases self,
    {
        match self {
            List::Cons(head, tail) => {
                let mut text = to_decimal(*head);
                let rest = tail.stringify();
                proof {
                    reveal_strlit(", ");
                    assert(", "@ =~= seq![',', ' ']);
                    assert(self@.drop_first() =~= tail@);
                }
                text.append(", ");
                text.append(rest.as_str());
                text
            },
            List::Nil => {
                proof {
                    reveal_strlit("Nil");
                    assert("Nil"@ =~= seq!['N', 'i', 'l']);
                }
                String::from_str("Nil")
            },
        }
    }
}

/// The empty list has no elements, and its text is the word `Nil` alone.
pub proof fn lemma_empty()
    ensures
        List::new()@.len() == 0,
        text_of(List::new()@) == seq!['N', 'i', 'l'],
{
}

/// Prepending makes a list longer by exactly one element.
pub proof fn lemma_prepend_len(list: List, elem: u32)
    ensures
        list.prepend(elem)@.len() == list@.len() + 1,
{
}

/// The text of a list after a prepend is the new element in decimal, a comma
/// and a space, and then the text of the list as it was.
pub proof fn lemma_prepend_text(list: List, elem: u32)
    ensures
        text_of(list.prepend(elem)@) == decimal(elem as nat) + seq![',', ' '] + text_of(list@),
{
    assert(list.prepend(elem)@.drop_first() =~= list@);
}

/// Prepended elements stand before the list they were prepended to, the one
/// prepended last at the head.
pub proof fn lemma_prepend_each_reverses(list: List, elems: Seq<u32>)
    ensures
        list.prepend_each(elems)@ == elems.reverse() + list@,
    decreases elems.len(),
{
    if elems.len() > 0 {
        lemma_prepend_each_reverses(list, elems.drop_last());
        assert(elems.reverse() =~= seq![elems.last()] + elems.drop_last().reverse());
    }
}

/// After `n` prepends a list is longer by `n`; one that started empty has
/// exactly `n` elements.
pub proof fn lemma_prepend_each_len(list: List, elems: Seq<u32>)
    ensures
        list.prepend_each(elems)@.len() == list@.len() + elems.len(),
        List::new().prepend_each(elems)@.len() == elems.len(),
{
    lemma_prepend_each_reverses(list, elems);
    lemma_prepend_each_reverses(List::new(), elems);
}

} // verus!
