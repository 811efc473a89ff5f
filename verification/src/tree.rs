//! What a scan finds: a model of the directories below the search paths, and
//! the proof that a scan answered from it finds the bundles of every
//! directory it may enter, each once, parents before children and siblings in
//! listing order.

use vstd::prelude::*;
use std::path::PathBuf;
use crate::config::{Entry, Format};
use crate::scanner::{declared, preferred, stacked, visited, Child, Reply, Stage, Walk};

verus! {

/// What the file system holds at a path, as far as a scan can see.
pub struct Tree {
    /// The name under which the parent directory lists this path.
    pub name: Option<Seq<char>>,
    pub path: PathBuf,
    /// Whether the path is a directory. Of one that is none, a scan sees
    /// nothing else.
    pub is_dir: bool,
    /// The TOML descriptor file: `None` where there is none, `Some(None)`
    /// where it cannot be read.
    pub toml: Option<Option<Seq<char>>>,
    /// The JSON descriptor file, likewise.
    pub json: Option<Option<Seq<char>>>,
    /// The subdirectories, in listing order.
    pub children: Seq<Tree>,
}

impl Tree {
    /// The tree as its parent's listing shows it.
    pub open spec fn child(self) -> Child {
        Child { name: self.name, path: self.path }
    }

    /// The listing of the directory.
    pub open spec fn listing(self) -> Seq<Child> {
        self.children.map_values(|t: Tree| t.child())
    }

    /// The text of the descriptor file of a format, where it can be read.
    pub open spec fn content(self, format: Format) -> Option<Seq<char>> {
        let file = match format {
            Format::Toml => self.toml,
            Format::Json => self.json,
        };
        match file {
            Some(text) => text,
            None => None,
        }
    }

    /// The true answer to what a scan asks of this directory at a stage.
    pub open spec fn reply(self, stage: Stage) -> Reply {
        match stage {
            Stage::Probe => Reply::Probed {
                is_dir: self.is_dir,
                has_toml: self.toml is Some,
                has_json: self.json is Some,
            },
            Stage::Read(format) => Reply::Content(self.content(format)),
            Stage::List => Reply::Subdirectories(self.listing()),
        }
    }

    /// The bundle of the directory itself: what its preferred descriptor
    /// file declares, if it has one and that declares one.
    pub open spec fn own(self) -> Seq<Entry> {
        match preferred(self.toml is Some, self.json is Some) {
            Some(format) => match declared(self.content(format), format) {
                Some(config) => seq![Entry { config, path: self.path }],
                None => Seq::empty(),
            },
            None => Seq::empty(),
        }
    }

    /// The bundles in and below the directory: its own, then those of each
    /// subdirectory that a scan goes into, in listing order.
    pub open spec fn found(self) -> Seq<Entry>
        decreases self, 1nat, 0nat,
    {
        if self.is_dir {
            self.own() + self.found_below(0)
        } else {
            Seq::empty()
        }
    }

    /// The bundles below the directory, from the subdirectory at `from` on.
    pub open spec fn found_below(self, from: nat) -> Seq<Entry>
        decreases self, 0nat, self.children.len() - from,
    {
        if from >= self.children.len() {
            Seq::empty()
        } else if visited(self.children[from as int].child()) {
            self.children[from as int].found() + self.found_below(from + 1)
        } else {
            self.found_below(from + 1)
        }
    }

    /// The number of requests that a scan makes in and below the directory.
    pub open spec fn steps(self) -> nat
        decreases self, 1nat, 0nat,
    {
        if !self.is_dir {
            1
        } else if preferred(self.toml is Some, self.json is Some) is Some {
            3 + self.steps_below(0)
        } else {
            2 + self.steps_below(0)
        }
    }

    /// The number of requests below the directory, from the subdirectory at
    /// `from` on.
    pub open spec fn steps_below(self, from: nat) -> nat
        decreases self, 0nat, self.children.len() - from,
    {
        if from >= self.children.len() {
            0
        } else if visited(self.children[from as int].child()) {
            self.children[from as int].steps() + self.steps_below(from + 1)
        } else {
            self.steps_below(from + 1)
        }
    }
}

/// The paths of a sequence of trees.
pub open spec fn paths(forest: Seq<Tree>) -> Seq<PathBuf> {
    forest.map_values(|t: Tree| t.path)
}

/// The subdirectories that a scan goes into, the first of the listing last.
pub open spec fn entered(children: Seq<Tree>) -> Seq<Tree>
    decreases children.len(),
{
    if children.len() == 0 {
        Seq::empty()
    } else if visited(children[0].child()) {
        entered(children.drop_first()).push(children[0])
    } else {
        entered(children.drop_first())
    }
}

/// The bundles in and below the trees of a stack, the last tree first.
pub open spec fn found_stack(forest: Seq<Tree>) -> Seq<Entry>
    decreases forest.len(),
{
    if forest.len() == 0 {
        Seq::empty()
    } else {
        forest.last().found() + found_stack(forest.drop_last())
    }
}

/// The bundles in and below the trees of a sequence, in its order.
pub open spec fn found_in_order(roots: Seq<Tree>) -> Seq<Entry>
    decreases roots.len(),
{
    if roots.len() == 0 {
        Seq::empty()
    } else {
        roots.first().found() + found_in_order(roots.drop_first())
    }
}

/// The number of requests that a scan makes on the trees of a stack.
pub open spec fn steps_stack(forest: Seq<Tree>) -> nat
    decreases forest.len(),
{
    if forest.len() == 0 {
        0
    } else {
        forest.last().steps() + steps_stack(forest.drop_last())
    }
}

/// The scan `walk` after at most `limit` requests, each answered truly from
/// the tree at the directory asked about. `forest` holds the trees of the
/// pending directories.
pub open spec fn run(walk: Walk, forest: Seq<Tree>, limit: nat) -> Walk
    decreases limit,
{
    if limit == 0 || forest.len() == 0 {
        walk
    } else {
        let tree = forest.last();
        let next = walk.advance(tree.reply(walk.stage));
        let rest = match walk.stage {
            Stage::Probe => if tree.is_dir {
                forest
            } else {
                forest.drop_last()
            },
            Stage::Read(_) => forest,
            Stage::List => forest.drop_last() + entered(tree.children),
        };
        run(next, rest, (limit - 1) as nat)
    }
}

proof fn lemma_entered(tree: Tree, from: nat)
    requires
        from <= tree.children.len(),
    ensures
        found_stack(entered(tree.children.skip(from as int))) == tree.found_below(from),
        steps_stack(entered(tree.children.skip(from as int))) == tree.steps_below(from),
        paths(entered(tree.children.skip(from as int))) == stacked(
            tree.listing().skip(from as int),
        ),
    decreases tree.children.len() - from,
{
    let rest = tree.children.skip(from as int);
    let listed = tree.listing().skip(from as int);
    if from == tree.children.len() {
        assert(rest.len() == 0);
        assert(listed.len() == 0);
        assert(paths(entered(rest)) =~= stacked(listed));
    } else {
        lemma_entered(tree, from + 1);
        assert(rest.drop_first() =~= tree.children.skip((from + 1) as int));
        assert(listed.drop_first() =~= tree.listing().skip((from + 1) as int));
        assert(rest[0] == tree.children[from as int]);
        assert(listed[0] == tree.children[from as int].child());
        let deeper = entered(rest.drop_first());
        if visited(rest[0].child()) {
            assert(entered(rest) == deeper.push(rest[0]));
            assert(entered(rest).last() == rest[0]);
            assert(entered(rest).drop_last() =~= deeper);
            assert(paths(entered(rest)) =~= paths(deeper).push(rest[0].path));
        }
    }
}

proof fn lemma_stack_concat(below: Seq<Tree>, above: Seq<Tree>)
    ensures
        found_stack(below + above) == found_stack(above) + found_stack(below),
        steps_stack(below + above) == steps_stack(above) + steps_stack(below),
        paths(below + above) == paths(below) + paths(above),
    decreases above.len(),
{
    assert(paths(below + above) =~= paths(below) + paths(above));
    if above.len() == 0 {
        assert(below + above =~= below);
        assert(found_stack(above) + found_stack(below) =~= found_stack(below));
    } else {
        lemma_stack_concat(below, above.drop_last());
        assert((below + above).last() == above.last());
        assert((below + above).drop_last() =~= below + above.drop_last());
        assert(found_stack(below + above) =~= found_stack(above) + found_stack(below));
    }
}

proof fn lemma_run(walk: Walk, forest: Seq<Tree>, limit: nat)
    requires
        walk.stage == Stage::Probe,
        walk.pending == paths(forest),
        limit >= steps_stack(forest),
    ensures
        run(walk, forest, limit) == (Walk {
            stage: Stage::Probe,
            pending: Seq::empty(),
            entries: walk.entries + found_stack(forest),
        }),
    decreases limit,
{
    if forest.len() == 0 {
        assert(walk.pending =~= Seq::<PathBuf>::empty());
        assert(walk.entries + found_stack(forest) =~= walk.entries);
    } else {
        let tree = forest.last();
        let below = forest.drop_last();
        assert(walk.pending.len() == forest.len());
        assert(walk.pending.last() == tree.path);
        assert(walk.pending.drop_last() =~= paths(below));
        assert(limit >= 1);
        if !tree.is_dir {
            let next = walk.advance(tree.reply(Stage::Probe));
            assert(next == Walk { pending: paths(below), ..walk });
            lemma_run(next, below, (limit - 1) as nat);
            assert(tree.found() + found_stack(below) =~= found_stack(below));
        } else {
            let kind = preferred(tree.toml is Some, tree.json is Some);
            let probed = walk.advance(tree.reply(Stage::Probe));
            let read = match kind {
                Some(format) => probed.advance(tree.reply(Stage::Read(format))),
                None => probed,
            };
            let used: nat = if kind is Some {
                2
            } else {
                1
            };
            assert(read == Walk { stage: Stage::List, entries: walk.entries + tree.own(), ..walk })
                by {
                assert(walk.entries + Seq::<Entry>::empty() =~= walk.entries);
                if kind is Some {
                    let format = kind->0;
                    if declared(tree.content(format), format) is Some {
                        let config = declared(tree.content(format), format)->0;
                        assert(walk.entries.push(Entry { config, path: tree.path })
                            =~= walk.entries + tree.own());
                    }
                }
            }
            let listed = read.advance(tree.reply(Stage::List));
            let rest = below + entered(tree.children);
            lemma_entered(tree, 0);
            assert(tree.children.skip(0) =~= tree.children);
            assert(tree.listing().skip(0) =~= tree.listing());
            lemma_stack_concat(below, entered(tree.children));
            assert(listed == Walk {
                stage: Stage::Probe,
                pending: paths(rest),
                entries: walk.entries + tree.own(),
            });
            assert(limit >= used + 1 + steps_stack(rest));
            lemma_run(listed, rest, (limit - used - 1) as nat);
            assert(run(read, forest, (limit - used) as nat) == run(
                listed,
                rest,
                (limit - used - 1) as nat,
            ));
            assert(run(walk, forest, limit) == run(read, forest, (limit - used) as nat)) by {
                assert(run(walk, forest, limit) == run(probed, forest, (limit - 1) as nat));
                if kind is Some {
                    assert(run(probed, forest, (limit - 1) as nat) == run(
                        read,
                        forest,
                        (limit - 2) as nat,
                    ));
                }
            }
            assert(walk.entries + tree.own() + found_stack(rest) =~= walk.entries + found_stack(
                forest,
            ));
        }
    }
}

proof fn lemma_reversed(roots: Seq<Tree>)
    ensures
        found_stack(roots.reverse()) == found_in_order(roots),
        paths(roots.reverse()) == paths(roots).reverse(),
    decreases roots.len(),
{
    assert(paths(roots.reverse()) =~= paths(roots).reverse());
    if roots.len() > 0 {
        lemma_reversed(roots.drop_first());
        assert(roots.reverse().last() == roots.first());
        assert(roots.reverse().drop_last() =~= roots.drop_first().reverse());
    }
}

/// A scan of `roots`, answered truly at every request, comes to an end
/// within the number of requests that the trees call for, and then holds the
/// bundles of the roots in their order: of each directory first its own
/// bundle, then those below it, subdirectory by subdirectory in listing
/// order. A directory that is hidden or holds build output is not gone into,
/// so that nothing in or below it is found; a directory whose descriptor is
/// unreadable or malformed gives no bundle itself and is gone into all the
/// same; and no directory gives more than one bundle.
pub proof fn lemma_scan_finds_bundles_in_order(roots: Seq<Tree>, limit: nat)
    requires
        limit >= steps_stack(roots.reverse()),
    ensures
        run(Walk::begin(paths(roots)), roots.reverse(), limit) == (Walk {
            stage: Stage::Probe,
            pending: Seq::empty(),
            entries: found_in_order(roots),
        }),
{
    lemma_reversed(roots);
    let start = Walk::begin(paths(roots));
    lemma_run(start, roots.reverse(), limit);
    assert(start.entries + found_stack(roots.reverse()) =~= found_in_order(roots));
}

/// Whether neither the directory nor any directory below it holds a
/// descriptor file that declares a bundle.
pub open spec fn without_descriptors(tree: Tree) -> bool
    decreases tree,
{
    tree.own() == Seq::<Entry>::empty() && forall|i: int|
        0 <= i < tree.children.len() ==> without_descriptors(#[trigger] tree.children[i])
}

proof fn lemma_nothing_below(tree: Tree, from: nat)
    requires
        without_descriptors(tree),
    ensures
        tree.found_below(from) == Seq::<Entry>::empty(),
    decreases tree, 0nat, tree.children.len() - from,
{
    if from < tree.children.len() {
        lemma_nothing_below(tree, from + 1);
        lemma_nothing_in(tree.children[from as int]);
        assert(Seq::<Entry>::empty() + Seq::<Entry>::empty() =~= Seq::<Entry>::empty());
    }
}

proof fn lemma_nothing_in(tree: Tree)
    requires
        without_descriptors(tree),
    ensures
        tree.found() == Seq::<Entry>::empty(),
    decreases tree, 1nat, 0nat,
{
    lemma_nothing_below(tree, 0);
    assert(Seq::<Entry>::empty() + Seq::<Entry>::empty() =~= Seq::<Entry>::empty());
}

/// Where no directory in or below the roots holds a descriptor file that
/// declares a bundle, a scan finds nothing.
pub proof fn lemma_nothing_found_without_descriptors(roots: Seq<Tree>)
    requires
        forall|i: int| 0 <= i < roots.len() ==> without_descriptors(#[trigger] roots[i]),
    ensures
        found_in_order(roots) == Seq::<Entry>::empty(),
    decreases roots.len(),
{
    if roots.len() > 0 {
        lemma_nothing_in(roots.first());
        assert forall|i: int| 0 <= i < roots.drop_first().len() implies without_descriptors(
            #[trigger] roots.drop_first()[i],
        ) by {
            assert(roots.drop_first()[i] == roots[i + 1]);
        }
        lemma_nothing_found_without_descriptors(roots.drop_first());
        assert(Seq::<Entry>::empty() + Seq::<Entry>::empty() =~= Seq::<Entry>::empty());
    }
}

} // verus!
