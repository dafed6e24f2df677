//! Configured contexts and the labels under which a picker shows them.

use vstd::prelude::*;
use vstd::string::*;

verus! {

/// The cluster, and possibly the namespace, that a context points to.
#[derive(Debug, PartialEq, Eq)]
pub struct ContextTarget {
    /// Name of the cluster.
    pub cluster: String,
    /// Namespace used for requests that name none.
    pub namespace: Option<String>,
}

/// A context as the configuration names it.
#[derive(Debug, PartialEq, Eq)]
pub struct ContextEntry {
    /// Name of the context, by which it is selected.
    pub name: String,
    /// What the context points to, where the configuration says so.
    pub target: Option<ContextTarget>,
}

/// Mathematical value of a [`ContextTarget`].
pub struct ContextTargetView {
    pub cluster: Seq<char>,
    pub namespace: Option<Seq<char>>,
}

/// Mathematical value of a [`ContextEntry`].
pub struct ContextEntryView {
    pub name: Seq<char>,
    pub target: Option<ContextTargetView>,
}

impl View for ContextTarget {
    type V = ContextTargetView;

    open spec fn view(&self) -> ContextTargetView {
        ContextTargetView {
            cluster: self.cluster@,
            namespace: match self.namespace {
                Some(namespace) => Some(namespace@),
                None => None,
            },
        }
    }
}

impl View for ContextEntry {
    type V = ContextEntryView;

    open spec fn view(&self) -> ContextEntryView {
        ContextEntryView {
            name: self.name@,
            target: match self.target {
                Some(target) => Some(target@),
                None => None,
            },
        }
    }
}

impl DeepView for ContextEntry {
    type V = ContextEntryView;

    open spec fn deep_view(&self) -> ContextEntryView {
        self@
    }
}

/// The text shown in place of a cluster or namespace that is not configured.
pub open spec fn absent_text() -> Seq<char> {
    "N/A"@
}

impl ContextEntryView {
    /// The cluster as shown: its name, or the placeholder when the context
    /// points nowhere.
    pub open spec fn cluster_text(self) -> Seq<char> {
        match self.target {
            Some(target) => target.cluster,
            None => absent_text(),
        }
    }

    /// The namespace as shown: its name, or the placeholder when the context
    /// points nowhere or names no namespace.
    pub open spec fn namespace_text(self) -> Seq<char> {
        match self.target {
            Some(target) => match target.namespace {
                Some(namespace) => namespace,
                None => absent_text(),
            },
            None => absent_text(),
        }
    }

    /// The label of the context: `<name> (cluster: <cluster>, namespace: <namespace>)`.
    pub open spec fn label(self) -> Seq<char> {
        self.name + " (cluster: "@ + self.cluster_text() + ", namespace: "@
            + self.namespace_text() + ")"@
    }
}

impl ContextEntry {
    /// Renders the label under which the picker lists this context.
    pub fn label(&self) -> (text: String)
        ensures
            text@ == self@.label(),
    {
        let mut text = self.name.clone();
        text.append(" (cluster: ");
        match &self.target {
            Some(target) => {
                text.append(target.cluster.as_str());
                text.append(", namespace: ");
                match &target.namespace {
                    Some(namespace) => text.append(namespace.as_str()),
                    None => text.append("N/A"),
                }
            },
            None => {
                text.append("N/A");
                text.append(", namespace: ");
                text.append("N/A");
            },
        }
        text.append(")");
        text
    }
}

/// The three shapes of a label: a context that points nowhere shows the
/// placeholder for cluster and namespace; one that points to a cluster and
/// names no namespace shows the cluster and the placeholder; one that names
/// both shows both.
pub proof fn lemma_label_shapes(name: Seq<char>, cluster: Seq<char>, namespace: Seq<char>)
    ensures
        (ContextEntryView { name, target: None }).label() == name
            + " (cluster: N/A, namespace: N/A)"@,
        (ContextEntryView {
            name,
            target: Some(ContextTargetView { cluster, namespace: None }),
        }).label() == name + " (cluster: "@ + cluster + ", namespace: N/A)"@,
        (ContextEntryView {
            name,
            target: Some(ContextTargetView { cluster, namespace: Some(namespace) }),
        }).label() == name + " (cluster: "@ + cluster + ", namespace: "@ + namespace + ")"@,
{
    reveal_strlit(" (cluster: ");
    reveal_strlit(", namespace: ");
    reveal_strlit("N/A");
    reveal_strlit(")");
    reveal_strlit(" (cluster: N/A, namespace: N/A)");
    reveal_strlit(", namespace: N/A)");
    assert(" (cluster: "@ + "N/A"@ + ", namespace: "@ + "N/A"@ + ")"@
        =~= " (cluster: N/A, namespace: N/A)"@);
    assert(", namespace: "@ + "N/A"@ + ")"@ =~= ", namespace: N/A)"@);
    assert(name + " (cluster: "@ + "N/A"@ + ", namespace: "@ + "N/A"@ + ")"@ =~= name + (
    " (cluster: "@ + "N/A"@ + ", namespace: "@ + "N/A"@ + ")"@));
    assert(name + " (cluster: "@ + cluster + ", namespace: "@ + "N/A"@ + ")"@ =~= name
        + " (cluster: "@ + cluster + (", namespace: "@ + "N/A"@ + ")"@));
}

/// The labels of `entries`, in their order.
pub open spec fn labels_of(entries: Seq<ContextEntryView>) -> Seq<Seq<char>> {
    entries.map_values(|entry: ContextEntryView| entry.label())
}

/// The names of `entries`, in their order.
pub open spec fn names_of(entries: Seq<ContextEntryView>) -> Seq<Seq<char>> {
    entries.map_values(|entry: ContextEntryView| entry.name)
}

/// Renders the label of each context, in order.
pub fn labels(entries: &Vec<ContextEntry>) -> (texts: Vec<String>)
    ensures
        texts.deep_view() == labels_of(entries.deep_view()),
{
    let mut texts: Vec<String> = Vec::new();
    let mut i: usize = 0;
    while i < entries.len()
        invariant
            0 <= i <= entries.len(),
            texts.len() == i,
            forall|j: int| 0 <= j < i ==> texts@[j]@ == #[trigger] entries@[j]@.label(),
        decreases entries.len() - i,
    {
        let text = entries[i].label();
        texts.push(text);
        i = i + 1;
    }
    assert(texts.deep_view() =~= labels_of(entries.deep_view()));
    texts
}

/// Collects the name of each context, in order.
pub fn names(entries: &Vec<ContextEntry>) -> (listed: Vec<String>)
    ensures
        listed.deep_view() == names_of(entries.deep_view()),
{
    let mut listed: Vec<String> = Vec::new();
    let mut i: usize = 0;
    while i < entries.len()
        invariant
            0 <= i <= entries.len(),
            listed.len() == i,
            forall|j: int| 0 <= j < i ==> listed@[j]@ == #[trigger] entries@[j]@.name,
        decreases entries.len() - i,
    {
        let name = entries[i].name.clone();
        listed.push(name);
        i = i + 1;
    }
    assert(listed.deep_view() =~= names_of(entries.deep_view()));
    listed
}

} // verus!
