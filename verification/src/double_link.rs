//! A list with two ends: elements enter and leave at the front and at the
//! back, and can be read by their position from either end.

use std::collections::VecDeque;
use vstd::prelude::*;

verus! {

/// One element of a list, on its own.
#[derive(Debug, Clone, Copy)]
pub struct Node<T: Copy> {
    item: T,
}

impl<T: Copy> Node<T> {
    /// A node that holds `item`.
    pub fn new(item: T) -> (node: Self)
        ensures
            node.item() == item,
    {
        Node { item }
    }

    /// The element that the node holds.
    pub closed spec fn item(&self) -> T {
        self.item
    }

    /// The element that the node holds.
    pub fn get_item(&self) -> (item: T)
        ensures
            item == self.item(),
    {
        self.item
    }
}

/// The list. Its view is the sequence of its elements from front to back.
pub struct DoublyPointedList<T: Copy> {
    nodes: VecDeque<Node<T>>,
    size: usize,
}

/// The position from the front that index `n` stands for in a list of `len`
/// elements: `n` itself if it is not negative, else `len + n`, so that -1 is
/// the last element. `None` if there is no such position.
pub open spec fn posizione(len: nat, n: int) -> Option<int> {
    if 0 <= n < len {
        Some(n)
    } else if -(len as int) <= n < 0 {
        Some(len + n)
    } else {
        None
    }
}

impl<T: Copy> View for DoublyPointedList<T> {
    type V = Seq<T>;

    closed spec fn view(&self) -> Seq<T> {
        self.nodes@.map_values(|node: Node<T>| node.item())
    }
}

impl<T: Copy> DoublyPointedList<T> {
    /// The invariant of the list: it knows its own length.
    pub closed spec fn inv(&self) -> bool {
        self.size == self.nodes@.len()
    }

    /// An empty list.
    pub fn new() -> (list: Self)
        ensures
            list.inv(),
            list@ == Seq::<T>::empty(),
    {
        DoublyPointedList { nodes: VecDeque::new(), size: 0 }
    }

    /// Whether the list holds nothing.
    pub fn is_empty(&self) -> (vuota: bool)
        requires
            self.inv(),
        ensures
            vuota == (self@.len() == 0),
    {
        self.size == 0
    }

    /// The number of elements.
    pub fn len(&self) -> (len: usize)
        requires
            self.inv(),
        ensures
            len == self@.len(),
    {
        self.size
    }

    /// Adds `item` at the back.
    pub fn push_back(&mut self, item: T)
        requires
            old(self).inv(),
            old(self)@.len() < usize::MAX,
        ensures
            final(self).inv(),
            final(self)@ == old(self)@.push(item),
    {
        self.nodes.push_back(Node::new(item));
        self.size += 1;
        assert(self@ =~= old(self)@.push(item));
    }

    /// Adds `item` at the front.
    pub fn push_front(&mut self, item: T)
        requires
            old(self).inv(),
            old(self)@.len() < usize::MAX,
        ensures
            final(self).inv(),
            final(self)@ == seq![item] + old(self)@,
    {
        self.nodes.push_front(Node::new(item));
        self.size += 1;
        assert(self@ =~= seq![item] + old(self)@);
    }

    /// Takes the last element away and returns it; `None` on an empty list,
    /// which is left as it is.
    pub fn pop_back(&mut self) -> (item: Option<T>)
        requires
            old(self).inv(),
        ensures
            final(self).inv(),
            old(self)@.len() == 0 ==> item is None && final(self)@ == old(self)@,
            old(self)@.len() > 0 ==> item == Some(old(self)@.last()) && final(self)@ == old(
                self,
            )@.drop_last(),
    {
        if self.is_empty() {
            return None;
        }
        let old_tail = self.nodes.pop_back()?;
        self.size -= 1;
        assert(self@ =~= old(self)@.drop_last());
        Some(old_tail.get_item())
    }

    /// Takes the first element away and returns it; `None` on an empty list,
    /// which is left as it is.
    pub fn pop_front(&mut self) -> (item: Option<T>)
        requires
            old(self).inv(),
        ensures
            final(self).inv(),
            old(self)@.len() == 0 ==> item is None && final(self)@ == old(self)@,
            old(self)@.len() > 0 ==> item == Some(old(self)@.first()) && final(self)@ == old(
                self,
            )@.drop_first(),
    {
        if self.is_empty() {
            return None;
        }
        let old_head = self.nodes.pop_front()?;
        self.size -= 1;
        assert(self@ =~= old(self)@.drop_first());
        Some(old_head.get_item())
    }

    /// The element at index `n`: counted from the front, starting at 0, if
    /// `n` is not negative; counted from the back, starting at -1, if it is.
    /// `None` if the list has no such element.
    pub fn get(&self, n: i32) -> (item: Option<T>)
        requires
            self.inv(),
            n > i32::MIN,
        ensures
            item == match posizione(self@.len(), n as int) {
                Some(k) => Some(self@[k]),
                None => None,
            },
    {
        if n >= 0 {
            let k = n as usize;
            if k < self.size {
                Some(self.nodes[k].get_item())
            } else {
                None
            }
        } else {
            let dal_fondo = (-n) as usize;
            if dal_fondo <= self.size {
                Some(self.nodes[self.size - dal_fondo].get_item())
            } else {
                None
            }
        }
    }
}

impl<T: Copy> Default for DoublyPointedList<T> {
    /// An empty list.
    fn default() -> (list: Self)
        ensures
            list.inv(),
            list@ == Seq::<T>::empty(),
    {
        DoublyPointedList::new()
    }
}

impl<T: Copy + Default> Default for Node<T> {
    /// A node that holds the default element.
    fn default() -> (node: Self) {
        Node::new(T::default())
    }
}

/// The elements come out in the order in which they went in: what is put in
/// at the back and taken out at the front keeps its order, and so does what
/// is put in at the front and taken out at the back.
pub proof fn ordine_conservato<T>(s: Seq<T>, x: T)
    ensures
        s.push(x).drop_last() == s,
        s.push(x).last() == x,
        (seq![x] + s).drop_first() == s,
        (seq![x] + s).first() == x,
        s.len() > 0 ==> s.push(x).first() == s.first(),
        s.len() > 0 ==> (seq![x] + s).last() == s.last(),
{
}

} // verus!
