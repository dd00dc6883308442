//! Recognising kinds of projects by the files in a worktree.

use crate::dotnet::{
    belongs_to_dotnet, dotnet_files_are_told_by_name, ends_in, is_dotnet_project_file, is_match,
    DotnetPattern,
};
use vstd::prelude::*;

verus! {

/// One step of a path.
pub enum PathComponent {
    Prefix,
    RootDir,
    CurDir,
    ParentDir,
    /// A file or a directory; without a name where the name is not Unicode.
    Normal(Option<String>),
}

/// A change in a worktree, by the path of what changed.
pub struct UpdatedEntry {
    pub path: Vec<PathComponent>,
}

/// The last step of a path, if it is a file or a directory with a readable
/// name.
pub open spec fn file_name_spec(path: Seq<PathComponent>) -> Option<Seq<char>> {
    if path.len() == 0 {
        None
    } else {
        match path.last() {
            PathComponent::Normal(Some(name)) => Some(name@),
            _ => None,
        }
    }
}

impl UpdatedEntry {
    /// The name of the file or directory that changed.
    pub fn file_name(&self) -> (name: Option<&String>)
        ensures
            match name {
                Some(name) => file_name_spec(self.path@) == Some(name@),
                None => file_name_spec(self.path@) is None,
            },
    {
        let count = self.path.len();
        if count == 0 {
            return None;
        }
        match &self.path[count - 1] {
            PathComponent::Normal(Some(name)) => Some(name),
            _ => None,
        }
    }
}

/// The kinds of projects that are told apart.
#[derive(Clone, Copy, Debug, PartialEq, Eq, Structural)]
pub enum ProjectType {
    Dotnet,
    Node,
    Pnpm,
    Yarn,
}

/// What an event calls a kind of project.
pub open spec fn label(project_type: ProjectType) -> Seq<char> {
    match project_type {
        ProjectType::Dotnet => "dotnet"@,
        ProjectType::Node => "node"@,
        ProjectType::Pnpm => "pnpm"@,
        ProjectType::Yarn => "yarn"@,
    }
}

/// The kind of project that a file of this name belongs to.
pub open spec fn project_type_of(name: Seq<char>) -> Option<ProjectType> {
    if name == "pnpm-lock.yaml"@ {
        Some(ProjectType::Pnpm)
    } else if name == "yarn.lock"@ {
        Some(ProjectType::Yarn)
    } else if name == "package.json"@ {
        Some(ProjectType::Node)
    } else if is_dotnet_project_file(name) {
        Some(ProjectType::Dotnet)
    } else {
        None
    }
}

/// The kind of project that a changed entry points to.
pub open spec fn entry_project_type(entry: UpdatedEntry) -> Option<ProjectType> {
    match file_name_spec(entry.path@) {
        Some(name) => project_type_of(name),
        None => None,
    }
}

/// Whether some entry points to a kind of project.
pub open spec fn is_discovered(entries: Seq<UpdatedEntry>, project_type: ProjectType) -> bool {
    exists|i: int|
        0 <= i < entries.len() && entry_project_type(#[trigger] entries[i]) == Some(project_type)
}

/// The label of a kind of project if some entry points to it.
pub open spec fn label_if_discovered(
    entries: Seq<UpdatedEntry>,
    project_type: ProjectType,
) -> Seq<Seq<char>> {
    if is_discovered(entries, project_type) {
        seq![label(project_type)]
    } else {
        seq![]
    }
}

/// The labels of all kinds of projects that the entries point to, in
/// alphabetical order.
pub open spec fn discovered_labels(entries: Seq<UpdatedEntry>) -> Seq<Seq<char>> {
    label_if_discovered(entries, ProjectType::Dotnet) + label_if_discovered(
        entries,
        ProjectType::Node,
    ) + label_if_discovered(entries, ProjectType::Pnpm) + label_if_discovered(
        entries,
        ProjectType::Yarn,
    )
}

/// What a list of strings stands for.
pub open spec fn string_views(texts: Seq<String>) -> Seq<Seq<char>> {
    texts.map_values(|text: String| text@)
}

/// One more entry adds the kind of project that it points to and no other.
proof fn lemma_discovered_next(entries: Seq<UpdatedEntry>, i: int)
    requires
        0 <= i < entries.len(),
    ensures
        forall|project_type: ProjectType| #[trigger]
            is_discovered(entries.take(i + 1), project_type) == (is_discovered(
                entries.take(i),
                project_type,
            ) || entry_project_type(entries[i]) == Some(project_type)),
{
    let next = entries.take(i + 1);
    assert forall|project_type: ProjectType| #[trigger] is_discovered(next, project_type) == (
    is_discovered(entries.take(i), project_type) || entry_project_type(entries[i]) == Some(
        project_type,
    )) by {
        if is_discovered(entries.take(i), project_type) {
            let k = choose|k: int|
                0 <= k < i && entry_project_type(#[trigger] entries.take(i)[k]) == Some(
                    project_type,
                );
            assert(next[k] == entries.take(i)[k]);
        }
        if entry_project_type(entries[i]) == Some(project_type) {
            assert(next[i] == entries[i]);
        }
        if is_discovered(next, project_type) {
            let k = choose|k: int|
                0 <= k < next.len() && entry_project_type(#[trigger] next[k]) == Some(project_type);
            if k < i {
                assert(entries.take(i)[k] == next[k]);
            }
        }
    }
}

/// The kind of project that a file belongs to, by its name.
pub fn project_type_of_name(
    name: &String,
    dotnet_pattern: &DotnetPattern,
) -> (project_type: Option<ProjectType>)
    ensures
        project_type == project_type_of(name@),
{
    if *name == "pnpm-lock.yaml".to_string() {
        Some(ProjectType::Pnpm)
    } else if *name == "yarn.lock".to_string() {
        Some(ProjectType::Yarn)
    } else if *name == "package.json".to_string() {
        Some(ProjectType::Node)
    } else if is_match(dotnet_pattern, name.as_str()) {
        Some(ProjectType::Dotnet)
    } else {
        None
    }
}

/// Collects the kinds of projects that the entries point to.
pub fn discover_project_types(
    entries: &Vec<UpdatedEntry>,
    dotnet_pattern: &DotnetPattern,
) -> (labels: Vec<String>)
    ensures
        string_views(labels@) == discovered_labels(entries@),
{
    let mut dotnet = false;
    let mut node = false;
    let mut pnpm = false;
    let mut yarn = false;
    for i in 0..entries.len()
        invariant
            dotnet == is_discovered(entries@.take(i as int), ProjectType::Dotnet),
            node == is_discovered(entries@.take(i as int), ProjectType::Node),
            pnpm == is_discovered(entries@.take(i as int), ProjectType::Pnpm),
            yarn == is_discovered(entries@.take(i as int), ProjectType::Yarn),
    {
        proof {
            lemma_discovered_next(entries@, i as int);
        }
        let project_type = match entries[i].file_name() {
            Some(name) => project_type_of_name(name, dotnet_pattern),
            None => None,
        };
        match project_type {
            Some(ProjectType::Dotnet) => {
                dotnet = true;
            },
            Some(ProjectType::Node) => {
                node = true;
            },
            Some(ProjectType::Pnpm) => {
                pnpm = true;
            },
            Some(ProjectType::Yarn) => {
                yarn = true;
            },
            None => {},
        }
    }
    assert(entries@.take(entries@.len() as int) == entries@);
    let mut labels: Vec<String> = Vec::new();
    if dotnet {
        labels.push("dotnet".to_string());
    }
    if node {
        labels.push("node".to_string());
    }
    if pnpm {
        labels.push("pnpm".to_string());
    }
    if yarn {
        labels.push("yarn".to_string());
    }
    assert(string_views(labels@) == discovered_labels(entries@));
    labels
}

/// The dictionary order of texts, character by character.
pub open spec fn text_less(left: Seq<char>, right: Seq<char>) -> bool
    decreases left.len(),
{
    if right.len() == 0 {
        false
    } else if left.len() == 0 {
        true
    } else if left[0] == right[0] {
        text_less(left.drop_first(), right.drop_first())
    } else {
        left[0] < right[0]
    }
}

/// What is discovered comes out in strictly ascending order. So no label comes
/// twice, however many entries point to it.
pub proof fn discovered_labels_ascend(entries: Seq<UpdatedEntry>)
    ensures
        forall|i: int, j: int|
            0 <= i < j < discovered_labels(entries).len() ==> text_less(
                #[trigger] discovered_labels(entries)[i],
                #[trigger] discovered_labels(entries)[j],
            ),
{
    reveal_strlit("dotnet");
    reveal_strlit("node");
    reveal_strlit("pnpm");
    reveal_strlit("yarn");
    assert(label(ProjectType::Dotnet)[0] == 'd');
    assert(label(ProjectType::Node)[0] == 'n');
    assert(label(ProjectType::Pnpm)[0] == 'p');
    assert(label(ProjectType::Yarn)[0] == 'y');
}

/// A label is reported exactly when some entry points to its kind of project.
pub proof fn discovered_labels_are_complete(entries: Seq<UpdatedEntry>, project_type: ProjectType)
    ensures
        discovered_labels(entries).contains(label(project_type)) == is_discovered(
            entries,
            project_type,
        ),
{
    reveal_strlit("dotnet");
    reveal_strlit("node");
    reveal_strlit("pnpm");
    reveal_strlit("yarn");
    assert(label(ProjectType::Dotnet)[0] == 'd');
    assert(label(ProjectType::Node)[0] == 'n');
    assert(label(ProjectType::Pnpm)[0] == 'p');
    assert(label(ProjectType::Yarn)[0] == 'y');
    let labels = discovered_labels(entries);
    let dotnet = label_if_discovered(entries, ProjectType::Dotnet);
    let node = label_if_discovered(entries, ProjectType::Node);
    let pnpm = label_if_discovered(entries, ProjectType::Pnpm);
    if is_discovered(entries, project_type) {
        let at: nat = match project_type {
            ProjectType::Dotnet => 0,
            ProjectType::Node => dotnet.len(),
            ProjectType::Pnpm => dotnet.len() + node.len(),
            ProjectType::Yarn => dotnet.len() + node.len() + pnpm.len(),
        };
        assert(labels[at as int] == label(project_type));
    }
}

/// Whether some entry is a file or directory of this name.
pub open spec fn is_named(entries: Seq<UpdatedEntry>, name: Seq<char>) -> bool {
    exists|i: int|
        0 <= i < entries.len() && file_name_spec((#[trigger] entries[i]).path@) == Some(name)
}

/// Only the file names matter for what is discovered. The directories that they
/// stand in do not, nor entries without a readable name, nor the order of the
/// entries, nor how often one occurs.
pub proof fn discovery_depends_on_names_only(left: Seq<UpdatedEntry>, right: Seq<UpdatedEntry>)
    requires
        forall|name: Seq<char>| #[trigger] is_named(left, name) == is_named(right, name),
    ensures
        discovered_labels(left) == discovered_labels(right),
{
    assert forall|project_type: ProjectType| #[trigger]
        is_discovered(left, project_type) == is_discovered(right, project_type) by {
        if is_discovered(left, project_type) {
            lemma_names_discover(left, right, project_type);
        }
        if is_discovered(right, project_type) {
            lemma_names_discover(right, left, project_type);
        }
    }
}

proof fn lemma_names_discover(
    left: Seq<UpdatedEntry>,
    right: Seq<UpdatedEntry>,
    project_type: ProjectType,
)
    requires
        forall|name: Seq<char>| #[trigger] is_named(left, name) ==> is_named(right, name),
        is_discovered(left, project_type),
    ensures
        is_discovered(right, project_type),
{
    let i = choose|i: int|
        0 <= i < left.len() && entry_project_type(#[trigger] left[i]) == Some(project_type);
    let name = file_name_spec(left[i].path@)->0;
    assert(is_named(left, name));
    assert(is_named(right, name));
    let k = choose|k: int|
        0 <= k < right.len() && file_name_spec((#[trigger] right[k]).path@) == Some(name);
    assert(entry_project_type(right[k]) == Some(project_type));
}

/// The name of what changed is the last step of its path, where that is a readable
/// name, however long the path is and whatever stands before.
pub proof fn name_is_last_step(entry: UpdatedEntry, name: Option<&String>)
    requires
        call_ensures(UpdatedEntry::file_name, (&entry,), name),
    ensures
        name is Some <==> entry.path@.len() > 0 && (entry.path@.last() matches PathComponent::Normal(
            last,
        ) && last is Some),
        name is Some ==> (entry.path@.last() matches PathComponent::Normal(Some(last)) && name->0@
            == last@),
{
}

/// The directories above a file do not matter: the last step alone decides the name
/// and the kind of project.
pub proof fn directories_do_not_matter(
    directories: Seq<PathComponent>,
    last: PathComponent,
    deep: UpdatedEntry,
    flat: UpdatedEntry,
)
    requires
        deep.path@ == directories.push(last),
        flat.path@ == seq![last],
    ensures
        file_name_spec(deep.path@) == file_name_spec(flat.path@),
        last matches PathComponent::Normal(Some(name)) ==> file_name_spec(deep.path@) == Some(
            name@,
        ),
        entry_project_type(deep) == entry_project_type(flat),
{
}

/// Three names stand for one kind of project each, and the names that belong to
/// .NET for another one. No other name stands for any.
pub proof fn kinds_are_told_by_name(
    name: String,
    dotnet_pattern: DotnetPattern,
    project_type: Option<ProjectType>,
)
    requires
        call_ensures(project_type_of_name, (&name, &dotnet_pattern), project_type),
    ensures
        project_type == Some(ProjectType::Pnpm) <==> name@ == "pnpm-lock.yaml"@,
        project_type == Some(ProjectType::Yarn) <==> name@ == "yarn.lock"@,
        project_type == Some(ProjectType::Node) <==> name@ == "package.json"@,
        project_type == Some(ProjectType::Dotnet) <==> belongs_to_dotnet(name@),
{
    lemma_kinds(name@);
}

proof fn lemma_kinds(name: Seq<char>)
    ensures
        project_type_of(name) == Some(ProjectType::Pnpm) <==> name == "pnpm-lock.yaml"@,
        project_type_of(name) == Some(ProjectType::Yarn) <==> name == "yarn.lock"@,
        project_type_of(name) == Some(ProjectType::Node) <==> name == "package.json"@,
        project_type_of(name) == Some(ProjectType::Dotnet) <==> belongs_to_dotnet(name),
{
    dotnet_files_are_told_by_name(name);
    lemma_lock_files_do_not_belong_to_dotnet();
    reveal_strlit("pnpm-lock.yaml");
    reveal_strlit("yarn.lock");
    reveal_strlit("package.json");
    assert("pnpm-lock.yaml"@.len() == 14);
    assert("yarn.lock"@.len() == 9);
    assert("package.json"@.len() == 12);
}

proof fn lemma_lock_files_do_not_belong_to_dotnet()
    ensures
        !belongs_to_dotnet("pnpm-lock.yaml"@),
        !belongs_to_dotnet("yarn.lock"@),
        !belongs_to_dotnet("package.json"@),
{
    reveal_strlit("pnpm-lock.yaml");
    reveal_strlit("yarn.lock");
    reveal_strlit("package.json");
    reveal_strlit("global.json");
    reveal_strlit("Directory.Build.props");
    reveal_strlit(".csproj");
    reveal_strlit(".fsproj");
    reveal_strlit(".vbproj");
    reveal_strlit(".sln");
    assert("global.json"@.len() == 11);
    assert("Directory.Build.props"@.len() == 21);
    assert forall|name: Seq<char>|
        name == "pnpm-lock.yaml"@ || name == "yarn.lock"@ || name
            == "package.json"@ implies #[trigger] belongs_to_dotnet(name) == false by {
        assert(name.len() == 14 || name.len() == 9 || name.len() == 12);
        lemma_other_ending(name, ".csproj"@);
        lemma_other_ending(name, ".fsproj"@);
        lemma_other_ending(name, ".vbproj"@);
        lemma_other_ending(name, ".sln"@);
    }
}

proof fn lemma_other_ending(name: Seq<char>, ending: Seq<char>)
    requires
        ending.len() >= 2,
        name.len() >= 2,
        name[name.len() - 2] != ending[ending.len() - 2] || name.last() != ending.last(),
    ensures
        !ends_in(name, ending),
{
    if ends_in(name, ending) {
        let stem = choose|stem: Seq<char>|
            !stem.contains('\n') && name == #[trigger] (stem + ending);
        assert(name.last() == ending.last());
        assert(name[name.len() - 2] == ending[ending.len() - 2]);
    }
}

/// Whether the path of some entry ends in a name of which `is_meant` holds.
pub open spec fn some_entry_is(
    entries: Seq<UpdatedEntry>,
    is_meant: spec_fn(Seq<char>) -> bool,
) -> bool {
    exists|i: int|
        0 <= i < entries.len() && (#[trigger] entries[i]).path@.len() > 0 && (
        entries[i].path@.last() matches PathComponent::Normal(Some(name)) && is_meant(name@))
}

/// Whether a label is among those that were collected.
pub open spec fn has_label(labels: Seq<String>, label: Seq<char>) -> bool {
    exists|i: int| 0 <= i < labels.len() && (#[trigger] labels[i])@ == label
}

/// Each label is collected exactly if the path of some entry ends in a name that
/// stands for it, wherever the entry is in the list and however long its path. No
/// other label is collected, and none twice: they come in ascending order.
pub proof fn labels_tell_what_is_there(
    entries: Vec<UpdatedEntry>,
    dotnet_pattern: DotnetPattern,
    labels: Vec<String>,
)
    requires
        call_ensures(discover_project_types, (&entries, &dotnet_pattern), labels),
    ensures
        has_label(labels@, "node"@) <==> some_entry_is(
            entries@,
            |name: Seq<char>| name == "package.json"@,
        ),
        has_label(labels@, "pnpm"@) <==> some_entry_is(
            entries@,
            |name: Seq<char>| name == "pnpm-lock.yaml"@,
        ),
        has_label(labels@, "yarn"@) <==> some_entry_is(
            entries@,
            |name: Seq<char>| name == "yarn.lock"@,
        ),
        has_label(labels@, "dotnet"@) <==> some_entry_is(
            entries@,
            |name: Seq<char>| belongs_to_dotnet(name),
        ),
        forall|i: int|
            #![trigger labels@[i]]
            0 <= i < labels@.len() ==> {
                ||| labels@[i]@ == "dotnet"@
                ||| labels@[i]@ == "node"@
                ||| labels@[i]@ == "pnpm"@
                ||| labels@[i]@ == "yarn"@
            },
        forall|i: int, j: int|
            0 <= i < j < labels@.len() ==> text_less(
                (#[trigger] labels@[i])@,
                (#[trigger] labels@[j])@,
            ),
{
    labels_tell_what_entries_are(entries@, labels@);
}

/// The labels that entries are said to point to are those that their last steps
/// stand for.
pub proof fn labels_tell_what_entries_are(entries: Seq<UpdatedEntry>, labels: Seq<String>)
    requires
        string_views(labels) == discovered_labels(entries),
    ensures
        has_label(labels, "node"@) <==> some_entry_is(
            entries,
            |name: Seq<char>| name == "package.json"@,
        ),
        has_label(labels, "pnpm"@) <==> some_entry_is(
            entries,
            |name: Seq<char>| name == "pnpm-lock.yaml"@,
        ),
        has_label(labels, "yarn"@) <==> some_entry_is(
            entries,
            |name: Seq<char>| name == "yarn.lock"@,
        ),
        has_label(labels, "dotnet"@) <==> some_entry_is(
            entries,
            |name: Seq<char>| belongs_to_dotnet(name),
        ),
        forall|i: int|
            #![trigger labels[i]]
            0 <= i < labels.len() ==> {
                ||| labels[i]@ == "dotnet"@
                ||| labels[i]@ == "node"@
                ||| labels[i]@ == "pnpm"@
                ||| labels[i]@ == "yarn"@
            },
        forall|i: int, j: int|
            0 <= i < j < labels.len() ==> text_less(
                (#[trigger] labels[i])@,
                (#[trigger] labels[j])@,
            ),
{
    let node = |name: Seq<char>| name == "package.json"@;
    let pnpm = |name: Seq<char>| name == "pnpm-lock.yaml"@;
    let yarn = |name: Seq<char>| name == "yarn.lock"@;
    let dotnet = |name: Seq<char>| belongs_to_dotnet(name);
    assert forall|name: Seq<char>| #[trigger]
        project_type_of(name) == Some(ProjectType::Node) <==> node(name) by {
        lemma_kinds(name);
    }
    lemma_label_tells(entries, labels, ProjectType::Node, node);
    assert forall|name: Seq<char>| #[trigger]
        project_type_of(name) == Some(ProjectType::Pnpm) <==> pnpm(name) by {
        lemma_kinds(name);
    }
    lemma_label_tells(entries, labels, ProjectType::Pnpm, pnpm);
    assert forall|name: Seq<char>| #[trigger]
        project_type_of(name) == Some(ProjectType::Yarn) <==> yarn(name) by {
        lemma_kinds(name);
    }
    lemma_label_tells(entries, labels, ProjectType::Yarn, yarn);
    assert forall|name: Seq<char>| #[trigger]
        project_type_of(name) == Some(ProjectType::Dotnet) <==> dotnet(name) by {
        lemma_kinds(name);
    }
    lemma_label_tells(entries, labels, ProjectType::Dotnet, dotnet);
    discovered_labels_ascend(entries);
    let texts = discovered_labels(entries);
    assert forall|i: int| 0 <= i < labels.len() implies (#[trigger] labels[i])@ == texts[i] by {
        assert(string_views(labels)[i] == labels[i]@);
    }
    assert(labels.len() == texts.len());
}

proof fn lemma_label_tells(
    entries: Seq<UpdatedEntry>,
    labels: Seq<String>,
    project_type: ProjectType,
    is_meant: spec_fn(Seq<char>) -> bool,
)
    requires
        string_views(labels) == discovered_labels(entries),
        forall|name: Seq<char>| #[trigger]
            project_type_of(name) == Some(project_type) <==> is_meant(name),
    ensures
        has_label(labels, label(project_type)) <==> some_entry_is(entries, is_meant),
{
    discovered_labels_are_complete(entries, project_type);
    let texts = discovered_labels(entries);
    if has_label(labels, label(project_type)) {
        let i = choose|i: int| 0 <= i < labels.len() && (#[trigger] labels[i])@ == label(project_type);
        assert(string_views(labels)[i] == labels[i]@);
        assert(texts.contains(texts[i]));
        let k = choose|k: int|
            0 <= k < entries.len() && entry_project_type(#[trigger] entries[k]) == Some(
                project_type,
            );
        assert(some_entry_is(entries, is_meant));
    }
    if some_entry_is(entries, is_meant) {
        let k = choose|k: int|
            0 <= k < entries.len() && (#[trigger] entries[k]).path@.len() > 0 && (
            entries[k].path@.last() matches PathComponent::Normal(Some(name)) && is_meant(name@));
        assert(entry_project_type(entries[k]) == Some(project_type));
        assert(texts.contains(label(project_type)));
        let i = choose|i: int| 0 <= i < texts.len() && texts[i] == label(project_type);
        assert(string_views(labels)[i] == labels[i]@);
    }
}

} // verus!
