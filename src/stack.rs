use vstd::prelude::*;

verus! {

/// A LIFO sequence of operands; the last element is the top.
pub struct OperandStack<T> {
    items: Vec<T>,
}

impl<T> View for OperandStack<T> {
    type V = Seq<T>;

    closed spec fn view(&self) -> Seq<T> {
        self.items@
    }
}

/// The top of `s`, if `s` is not empty.
pub open spec fn top_of<T>(s: Seq<T>) -> Option<T> {
    if s.len() == 0 {
        None
    } else {
        Some(s.last())
    }
}

/// `s` without its top element (`s` itself when empty).
pub open spec fn without_top<T>(s: Seq<T>) -> Seq<T> {
    if s.len() == 0 {
        s
    } else {
        s.drop_last()
    }
}

impl<T: Copy> OperandStack<T> {
    /// An empty stack.
    pub fn new() -> (r: Self)
        ensures
            r@ == Seq::<T>::empty(),
    {
        OperandStack { items: Vec::new() }
    }

    /// A stack holding `items`, the last of them on top.
    pub fn from_vec(items: Vec<T>) -> (r: Self)
        ensures
            r@ == items@,
    {
        OperandStack { items }
    }

    /// The number of operands on the stack.
    pub fn len(&self) -> (r: usize)
        ensures
            r == self@.len(),
    {
        self.items.len()
    }

    /// Whether the stack holds no operand.
    pub fn is_empty(&self) -> (r: bool)
        ensures
            r == (self@.len() == 0),
    {
        self.items.len() == 0
    }

    /// Puts `value` on top of the stack.
    pub fn push(&mut self, value: T)
        ensures
            final(self)@ == old(self)@.push(value),
    {
        self.items.push(value);
    }

    /// Removes and returns the top operand; `None`, with nothing changed,
    /// when the stack is empty.
    pub fn pop(&mut self) -> (r: Option<T>)
        ensures
            r == top_of(old(self)@),
            final(self)@ == without_top(old(self)@),
    {
        self.items.pop()
    }

    /// The top operand, if any, without removing it.
    pub fn peek(&self) -> (r: Option<T>)
        ensures
            r == top_of(self@),
    {
        let n = self.items.len();
        if n == 0 {
            None
        } else {
            Some(self.items[n - 1])
        }
    }

    /// A copy of the stack's contents, bottom first.
    pub fn contents(&self) -> (r: Vec<T>)
        ensures
            r@ == self@,
    {
        let mut out: Vec<T> = Vec::new();
        let mut i: usize = 0;
        while i < self.items.len()
            invariant
                i <= self.items@.len(),
                out@ == self.items@.subrange(0, i as int),
            decreases self.items@.len() - i,
        {
            out.push(self.items[i]);
            i += 1;
        }
        assert(out@ =~= self.items@);
        out
    }

    /// Empties the stack and returns what it held just before, bottom first.
    pub fn clear(&mut self) -> (r: Vec<T>)
        ensures
            r@ == old(self)@,
            final(self)@ == Seq::<T>::empty(),
    {
        let before = self.contents();
        self.items.clear();
        before
    }
}

} // verus!
