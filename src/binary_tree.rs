use std::rc::Rc;
use vstd::prelude::*;

verus! {

/// A shared handle to a tree node.
pub type NodeRef<T> = Rc<Node<T>>;

/// A binary-tree node whose children are shared, immutable handles.
pub struct Node<T: PartialEq + Eq + PartialOrd + Ord> {
    pub val: T,
    left: Option<NodeRef<T>>,
    right: Option<NodeRef<T>>,
}

impl<T: PartialEq + Eq + PartialOrd + Ord> Node<T> {
    /// The value held by the node.
    pub closed spec fn value(&self) -> T {
        self.val
    }

    /// The left child, if any.
    pub closed spec fn left_child(&self) -> Option<Node<T>> {
        match self.left {
            Some(n) => Some(*n),
            None => None,
        }
    }

    /// The right child, if any.
    pub closed spec fn right_child(&self) -> Option<Node<T>> {
        match self.right {
            Some(n) => Some(*n),
            None => None,
        }
    }

    /// A node without children.
    pub open spec fn is_leaf(&self) -> bool {
        self.left_child() is None && self.right_child() is None
    }

    /// A node holding `val` whose children, where given, are leaves with the
    /// given values.
    pub fn new(val: T, left_val: Option<T>, right_val: Option<T>) -> (r: Self)
        ensures
            r.value() == val,
            left_val is None ==> r.left_child() is None,
            right_val is None ==> r.right_child() is None,
            left_val matches Some(v) ==> (r.left_child() matches Some(n) && n.value() == v
                && n.is_leaf()),
            right_val matches Some(v) ==> (r.right_child() matches Some(n) && n.value() == v
                && n.is_leaf()),
    {
        let left = match left_val {
            Some(v) => Some(Rc::new(Node::with_value(v))),
            None => None,
        };
        let right = match right_val {
            Some(v) => Some(Rc::new(Node::with_value(v))),
            None => None,
        };
        Node { val, left, right }
    }

    /// A leaf holding `val`.
    pub fn with_value(val: T) -> (r: Self)
        ensures
            r.value() == val,
            r.is_leaf(),
    {
        Node { val, left: None, right: None }
    }

    /// A node holding `val` with the two given nodes as its children.
    pub fn with_nodes(val: T, left: Node<T>, right: Node<T>) -> (r: Self)
        ensures
            r.value() == val,
            r.left_child() == Some(left),
            r.right_child() == Some(right),
    {
        Node { val, left: Some(Rc::new(left)), right: Some(Rc::new(right)) }
    }

    /// A shared handle to the left child, if there is one.
    pub fn get_left(&self) -> (r: Option<NodeRef<T>>)
        ensures
            match r {
                Some(n) => self.left_child() == Some(*n),
                None => self.left_child() is None,
            },
    {
        match &self.left {
            Some(node) => Some(Rc::clone(node)),
            None => None,
        }
    }

    /// A shared handle to the right child, if there is one.
    pub fn get_right(&self) -> (r: Option<NodeRef<T>>)
        ensures
            match r {
                Some(n) => self.right_child() == Some(*n),
                None => self.right_child() is None,
            },
    {
        match &self.right {
            Some(node) => Some(Rc::clone(node)),
            None => None,
        }
    }
}

} // verus!
