//! The dialog graph: nodes with display text and ordered options, each
//! option naming the node it leads to or the exit sentinel.
use vstd::prelude::*;

verus! {

/// A labelled choice on a node and where it leads.
#[derive(Clone, Debug)]
pub struct DialogOption {
    /// Shown to the user, and the exact text the classifier is expected to echo.
    pub label: String,
    /// The id of the next node, or `"exit"`.
    pub next_id: String,
}

/// One state of the conversation.
#[derive(Clone, Debug)]
pub struct DialogNode {
    pub id: String,
    pub text: String,
    pub options: Vec<DialogOption>,
}

/// The nodes of a dialog, in the order they were declared.
#[derive(Clone, Debug)]
pub struct DialogGraph {
    pub nodes: Vec<DialogNode>,
}

/// The id the conversation starts at.
pub open spec fn start_id() -> Seq<char> {
    "start"@
}

/// The `next_id` that ends the conversation.
pub open spec fn exit_id() -> Seq<char> {
    "exit"@
}

/// `i` is the first position of a node with id `id`.
pub open spec fn is_first_node(nodes: Seq<DialogNode>, id: Seq<char>, i: int) -> bool {
    0 <= i < nodes.len() && nodes[i].id@ == id && forall|j: int|
        0 <= j < i ==> #[trigger] nodes[j].id@ != id
}

/// Where the node with id `id` stands; the first one wins when ids repeat.
pub open spec fn node_index(nodes: Seq<DialogNode>, id: Seq<char>) -> Option<int> {
    if exists|i: int| is_first_node(nodes, id, i) {
        Some(choose|i: int| is_first_node(nodes, id, i))
    } else {
        None
    }
}

/// `k` is the first position of an option labelled `label`.
pub open spec fn is_first_option(options: Seq<DialogOption>, label: Seq<char>, k: int) -> bool {
    0 <= k < options.len() && options[k].label@ == label && forall|j: int|
        0 <= j < k ==> #[trigger] options[j].label@ != label
}

/// The option whose label equals `label` exactly; the first one wins.
pub open spec fn option_index(options: Seq<DialogOption>, label: Seq<char>) -> Option<int> {
    if exists|k: int| is_first_option(options, label, k) {
        Some(choose|k: int| is_first_option(options, label, k))
    } else {
        None
    }
}

/// The labels of the options, in order.
pub open spec fn labels_of(options: Seq<DialogOption>) -> Seq<Seq<char>> {
    options.map_values(|o: DialogOption| o.label@)
}

pub proof fn lemma_first_node_unique(nodes: Seq<DialogNode>, id: Seq<char>, i: int)
    requires
        is_first_node(nodes, id, i),
    ensures
        node_index(nodes, id) == Some(i),
{
    let c = choose|c: int| is_first_node(nodes, id, c);
    if c < i {
        assert(nodes[c].id@ != id);
    } else if i < c {
        assert(nodes[i].id@ != id);
    }
}

pub proof fn lemma_first_option_unique(options: Seq<DialogOption>, label: Seq<char>, k: int)
    requires
        is_first_option(options, label, k),
    ensures
        option_index(options, label) == Some(k),
{
    let c = choose|c: int| is_first_option(options, label, c);
    if c < k {
        assert(options[c].label@ != label);
    } else if k < c {
        assert(options[k].label@ != label);
    }
}

impl DialogGraph {
    /// Where the node with this id stands, if any.
    pub fn find_index(&self, id: &String) -> (r: Option<usize>)
        ensures
            match r {
                Some(i) => node_index(self.nodes@, id@) == Some(i as int),
                None => node_index(self.nodes@, id@) is None,
            },
    {
        let mut i: usize = 0;
        while i < self.nodes.len()
            invariant
                0 <= i <= self.nodes@.len(),
                forall|j: int| 0 <= j < i ==> #[trigger] self.nodes@[j].id@ != id@,
            decreases self.nodes@.len() - i,
        {
            if self.nodes[i].id == *id {
                proof {
                    lemma_first_node_unique(self.nodes@, id@, i as int);
                }
                return Some(i);
            }
            i = i + 1;
        }
        assert(!exists|k: int| is_first_node(self.nodes@, id@, k));
        None
    }

    /// The node with this id; the first one wins when ids repeat.
    pub fn lookup(&self, id: &String) -> (r: Option<&DialogNode>)
        ensures
            match node_index(self.nodes@, id@) {
                Some(i) => r == Some(&self.nodes@[i]),
                None => r is None,
            },
    {
        match self.find_index(id) {
            Some(i) => Some(&self.nodes[i]),
            None => None,
        }
    }
}

impl DialogNode {
    /// The first option whose label equals `label` exactly.
    pub fn match_option(&self, label: &String) -> (r: Option<usize>)
        ensures
            match r {
                Some(k) => option_index(self.options@, label@) == Some(k as int),
                None => option_index(self.options@, label@) is None,
            },
    {
        let mut k: usize = 0;
        while k < self.options.len()
            invariant
                0 <= k <= self.options@.len(),
                forall|j: int| 0 <= j < k ==> #[trigger] self.options@[j].label@ != label@,
            decreases self.options@.len() - k,
        {
            if self.options[k].label == *label {
                proof {
                    lemma_first_option_unique(self.options@, label@, k as int);
                }
                return Some(k);
            }
            k = k + 1;
        }
        assert(!exists|j: int| is_first_option(self.options@, label@, j));
        None
    }

    /// The option labels in order.
    pub fn labels(&self) -> (r: Vec<String>)
        ensures
            r@.map_values(|s: String| s@) == labels_of(self.options@),
    {
        let mut r: Vec<String> = Vec::new();
        let mut k: usize = 0;
        while k < self.options.len()
            invariant
                0 <= k <= self.options@.len(),
                r@.len() == k,
                forall|j: int| 0 <= j < k ==> #[trigger] r@[j]@ == self.options@[j].label@,
            decreases self.options@.len() - k,
        {
            r.push(self.options[k].label.clone());
            k = k + 1;
        }
        assert(r@.map_values(|s: String| s@) =~= labels_of(self.options@));
        r
    }
    /// The lines that present the node: the speaker's name and the node's
    /// text, then each option label behind a bullet.
    pub fn presentation(&self, speaker: &str) -> (r: Vec<String>)
        ensures
            r@.len() == self.options@.len() + 1,
            r@[0]@ == speaker@ + ": "@ + self.text@,
            forall|j: int|
                0 <= j < self.options@.len() ==> #[trigger] r@[j + 1]@ == "- "@ + self.options@[j].label@,
    {
        let mut r: Vec<String> = Vec::new();
        r.push(String::from_str(speaker).concat(": ").concat(self.text.as_str()));
        let mut k: usize = 0;
        while k < self.options.len()
            invariant
                0 <= k <= self.options@.len(),
                r@.len() == k + 1,
                r@[0]@ == speaker@ + ": "@ + self.text@,
                forall|j: int| 0 <= j < k ==> #[trigger] r@[j + 1]@ == "- "@ + self.options@[j].label@,
            decreases self.options@.len() - k,
        {
            r.push(String::from_str("- ").concat(self.options[k].label.as_str()));
            k = k + 1;
        }
        r
    }
}

} // verus!
