//! The content tree: immutable nodes carrying a tag, attributes, children,
//! an optional text payload, and the source byte offset where the node
//! begins in the original markup.  Offsets are the stable addressing unit
//! that survives re-layout.

use vstd::prelude::*;

verus! {

/// One attribute of a node: a name and a value.
#[derive(Debug)]
pub struct Attribute {
    pub name: String,
    pub value: String,
}

/// One node of the content tree.  Text nodes have no tag and carry their
/// payload in `text`; element nodes have a tag and children.
#[derive(Debug)]
pub struct Node {
    pub tag: Option<String>,
    pub attrs: Vec<Attribute>,
    pub children: Vec<Node>,
    pub text: Option<String>,
    pub offset: usize,
}

/// The value of the first attribute named `name`, scanning from index `i`.
pub open spec fn attr_value_from(attrs: Seq<Attribute>, name: Seq<char>, i: int) -> Option<Seq<char>>
    decreases attrs.len() - i,
{
    if i < 0 || i >= attrs.len() {
        None
    } else if attrs[i].name@ == name {
        Some(attrs[i].value@)
    } else {
        attr_value_from(attrs, name, i + 1)
    }
}

/// The value of the first attribute named `name`, if any.
pub open spec fn attr_value(attrs: Seq<Attribute>, name: Seq<char>) -> Option<Seq<char>> {
    attr_value_from(attrs, name, 0)
}

/// Whether `n` is an element node tagged `tag`.
pub open spec fn has_tag(n: Node, tag: Seq<char>) -> bool {
    match n.tag {
        Some(t) => t@ == tag,
        None => false,
    }
}

/// The first node tagged `tag` in a pre-order traversal of `n`.
pub open spec fn spec_find(n: Node, tag: Seq<char>) -> Option<Node>
    decreases n, 0nat,
{
    if has_tag(n, tag) {
        Some(n)
    } else {
        spec_find_kids(n.children, tag, 0)
    }
}

/// The first node tagged `tag` found in a pre-order traversal of the
/// children `cs[i..]`.
pub open spec fn spec_find_kids(cs: Vec<Node>, tag: Seq<char>, i: int) -> Option<Node>
    decreases cs, cs.len() - i, 1nat,
{
    if i < 0 || i >= cs.len() {
        None
    } else {
        match spec_find(cs[i], tag) {
            Some(m) => Some(m),
            None => spec_find_kids(cs, tag, i + 1),
        }
    }
}

/// The first child in `cs[i..]` tagged `tag`, if any.
pub open spec fn first_child_tagged(cs: Seq<Node>, tag: Seq<char>, i: int) -> Option<Node>
    decreases cs.len() - i,
{
    if i < 0 || i >= cs.len() {
        None
    } else if has_tag(cs[i], tag) {
        Some(cs[i])
    } else {
        first_child_tagged(cs, tag, i + 1)
    }
}

/// The first child in `cs[i..]` that is a `meta` element whose `name`
/// attribute equals `key`, if any.
pub open spec fn meta_named(cs: Seq<Node>, key: Seq<char>, i: int) -> Option<Node>
    decreases cs.len() - i,
{
    if i < 0 || i >= cs.len() {
        None
    } else if has_tag(cs[i], "meta"@) && attr_value(cs[i].attrs@, "name"@) == Some(key) {
        Some(cs[i])
    } else {
        meta_named(cs, key, i + 1)
    }
}

/// The fragment map of the subtree rooted at `n`: every node carrying an
/// `id` attribute contributes `"<name>#<id>" -> offset`; on a duplicate key
/// the entry of the later node in pre-order wins.
pub open spec fn uri_map(n: Node, name: Seq<char>) -> Map<Seq<char>, usize>
    decreases n, 0nat,
{
    let kids = uri_map_kids(n.children, name, 0);
    match attr_value(n.attrs@, "id"@) {
        Some(id) => Map::empty().insert(name + "#"@ + id, n.offset).union_prefer_right(kids),
        None => kids,
    }
}

/// The combined fragment map of the subtrees rooted at `cs[i..]`, entries of
/// later children overriding earlier ones.
pub open spec fn uri_map_kids(cs: Vec<Node>, name: Seq<char>, i: int) -> Map<Seq<char>, usize>
    decreases cs, cs.len() - i, 1nat,
{
    if i < 0 || i >= cs.len() {
        Map::empty()
    } else {
        uri_map(cs[i], name).union_prefer_right(uri_map_kids(cs, name, i + 1))
    }
}

/// Exact character equality of two string slices.
pub fn str_eq(a: &str, b: &str) -> (r: bool)
    ensures
        r == (a@ == b@),
{
    let alen = a.unicode_len();
    let blen = b.unicode_len();
    if alen != blen {
        proof {
            assert(a@.len() != b@.len());
        }
        return false;
    }
    let mut i: usize = 0;
    while i < alen
        invariant
            alen == a@.len(),
            alen == b@.len(),
            i <= alen,
            forall|j: int| 0 <= j < i ==> a@[j] == b@[j],
        decreases alen - i,
    {
        if a.get_char(i) != b.get_char(i) {
            return false;
        }
        i = i + 1;
    }
    proof {
        assert(a@ =~= b@);
    }
    true
}

impl Node {
    /// The value of the first attribute named `name`, if any.
    pub fn attr(&self, name: &str) -> (r: Option<&String>)
        ensures
            match r {
                Some(v) => attr_value(self.attrs@, name@) == Some(v@),
                None => attr_value(self.attrs@, name@) is None,
            },
    {
        let mut i: usize = 0;
        while i < self.attrs.len()
            invariant
                i <= self.attrs@.len(),
                attr_value(self.attrs@, name@) == attr_value_from(self.attrs@, name@, i as int),
            decreases self.attrs@.len() - i,
        {
            if str_eq(self.attrs[i].name.as_str(), name) {
                return Some(&self.attrs[i].value);
            }
            i = i + 1;
        }
        None
    }

    /// Whether this node is an element tagged `tag`.
    pub fn tag_is(&self, tag: &str) -> (r: bool)
        ensures
            r == has_tag(*self, tag@),
    {
        match &self.tag {
            Some(t) => str_eq(t.as_str(), tag),
            None => false,
        }
    }

    /// Depth-first lookup: the first node tagged `tag` in pre-order.
    pub fn find(&self, tag: &str) -> (r: Option<&Node>)
        ensures
            match r {
                Some(m) => spec_find(*self, tag@) == Some(*m),
                None => spec_find(*self, tag@) is None,
            },
        decreases *self, 0nat,
    {
        if self.tag_is(tag) {
            return Some(self);
        }
        let mut i: usize = 0;
        while i < self.children.len()
            invariant
                i <= self.children@.len(),
                !has_tag(*self, tag@),
                spec_find_kids(self.children, tag@, 0) == spec_find_kids(self.children, tag@, i as int),
            decreases self.children@.len() - i,
    {
            proof {
                assert(decreases_to!(*self => self.children));
                assert(decreases_to!(self.children => self.children[i as int]));
            }
            let found = self.children[i].find(tag);
            if found.is_some() {
                return found;
            }
            i = i + 1;
        }
        None
    }
}

} // verus!
