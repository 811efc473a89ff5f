//! Finding bundles: which directories a scan visits, in what order, and what
//! it makes of the descriptor files in them.
//!
//! A [`Scan`] never touches the file system. It hands out one
//! [`ScanRequest`] at a time, and takes the answer as a [`ScanReply`].

use vstd::prelude::*;
use std::path::PathBuf;
use crate::config::{
    entries_view, parsed, Descriptor, DotfileConfig, DotfileEntry, Entry, Format,
};
use crate::document::text_is;
use crate::paths::{home_directory, join, joined, path_from, path_of};

verus! {

/// Where a scan looks for bundles.
pub struct DotfileScanner {
    search_paths: Vec<PathBuf>,
}

/// A subdirectory, as a directory listing gives it.
#[derive(Debug, Clone)]
pub struct Subdirectory {
    /// The last component of the path, where it is valid Unicode.
    pub name: Option<String>,
    pub path: PathBuf,
}

/// The mathematical value of a [`Subdirectory`].
pub struct Child {
    pub name: Option<Seq<char>>,
    pub path: PathBuf,
}

/// What a scan asks of the file system next.
#[derive(Debug, Clone)]
pub enum ScanRequest {
    /// Is `dir` a directory, and which of the two descriptor files exist in
    /// it?
    Probe { dir: PathBuf },
    /// Read the descriptor file of the given format in `dir`.
    Read { dir: PathBuf, format: Format },
    /// List the subdirectories of `dir`.
    List { dir: PathBuf },
    /// Nothing: the scan is over.
    Done,
}

/// What the file system answers.
#[derive(Debug, Clone)]
pub enum ScanReply {
    /// To [`ScanRequest::Probe`].
    Probed { is_dir: bool, has_toml: bool, has_json: bool },
    /// To [`ScanRequest::Read`]: the text of the file, or `None` where it
    /// could not be read.
    Content(Option<String>),
    /// To [`ScanRequest::List`]: the subdirectories in the order the file
    /// system gives them, none where the directory could not be listed.
    Subdirectories(Vec<Subdirectory>),
}

/// The mathematical value of a [`ScanReply`].
pub enum Reply {
    Probed { is_dir: bool, has_toml: bool, has_json: bool },
    Content(Option<Seq<char>>),
    Subdirectories(Seq<Child>),
}

/// What a scan is about to ask of the directory it visits.
#[derive(Debug, Clone, Copy, PartialEq, Eq, Structural)]
pub enum Stage {
    Probe,
    Read(Format),
    List,
}

/// A scan under way.
pub struct Scan {
    stage: Stage,
    pending: Vec<PathBuf>,
    entries: Vec<DotfileEntry>,
}

/// The mathematical value of a [`Scan`].
pub struct Walk {
    /// What is asked next of the directory being visited.
    pub stage: Stage,
    /// The directories still to visit. The last one is being visited; the
    /// ones before it wait, the later the sooner.
    pub pending: Seq<PathBuf>,
    /// The bundles found so far, in the order they were found.
    pub entries: Seq<Entry>,
}

/// The characters of an optional string.
pub open spec fn content_view(content: Option<String>) -> Option<Seq<char>> {
    match content {
        Some(s) => Some(s@),
        None => None,
    }
}

impl View for Subdirectory {
    type V = Child;

    open spec fn view(&self) -> Child {
        Child { name: content_view(self.name), path: self.path }
    }
}

/// The mathematical values of a listing.
pub open spec fn children_view(children: Seq<Subdirectory>) -> Seq<Child> {
    children.map_values(|c: Subdirectory| c@)
}

impl View for ScanReply {
    type V = Reply;

    open spec fn view(&self) -> Reply {
        match *self {
            ScanReply::Probed { is_dir, has_toml, has_json } => Reply::Probed {
                is_dir,
                has_toml,
                has_json,
            },
            ScanReply::Content(content) => Reply::Content(content_view(content)),
            ScanReply::Subdirectories(children) => Reply::Subdirectories(children_view(children@)),
        }
    }
}

impl View for Scan {
    type V = Walk;

    closed spec fn view(&self) -> Walk {
        Walk { stage: self.stage, pending: self.pending@, entries: entries_view(self.entries@) }
    }
}

/// The name of the descriptor file of a format.
pub open spec fn file_name(format: Format) -> Seq<char> {
    match format {
        Format::Toml => "dotwell.toml"@,
        Format::Json => "dotwell.json"@,
    }
}

/// Whether a directory of this name is hidden: its name begins with a dot.
pub open spec fn hidden(name: Seq<char>) -> bool {
    name.len() > 0 && name[0] == '.'
}

/// Whether a scan passes over a directory of this name: a hidden one, or one
/// that holds what a build leaves behind.
pub open spec fn skipped(name: Seq<char>) -> bool {
    hidden(name) || name == "target"@ || name == "node_modules"@ || name == "build"@
}

/// Whether a scan goes into a subdirectory: one whose name is valid Unicode
/// and not passed over.
pub open spec fn visited(child: Child) -> bool {
    match child.name {
        Some(name) => !skipped(name),
        None => false,
    }
}

/// The paths of the subdirectories of a listing that a scan goes into, the
/// first of the listing last, so that it is visited first.
pub open spec fn stacked(children: Seq<Child>) -> Seq<PathBuf>
    decreases children.len(),
{
    if children.len() == 0 {
        Seq::empty()
    } else if visited(children[0]) {
        stacked(children.drop_first()).push(children[0].path)
    } else {
        stacked(children.drop_first())
    }
}

/// The descriptor that the text of a descriptor file declares, where the
/// file could be read and declares one.
pub open spec fn declared(content: Option<Seq<char>>, format: Format) -> Option<Descriptor> {
    match content {
        Some(text) => parsed(text, format),
        None => None,
    }
}

/// The descriptor file that a scan reads in a directory: the TOML one where
/// it exists, else the JSON one where that exists.
pub open spec fn preferred(has_toml: bool, has_json: bool) -> Option<Format> {
    if has_toml {
        Some(Format::Toml)
    } else if has_json {
        Some(Format::Json)
    } else {
        None
    }
}

/// The search paths of a default scan: `.config`, `dotfiles` and `.dotfiles`
/// under the home directory where there is one, the system configuration
/// directory where it exists, and the working directory where it is known.
pub open spec fn default_roots(
    home: Option<PathBuf>,
    system_root_exists: bool,
    current: Option<PathBuf>,
) -> Seq<PathBuf> {
    let under_home = match home {
        Some(home) => seq![
            joined(home, ".config"@),
            joined(home, "dotfiles"@),
            joined(home, ".dotfiles"@),
        ],
        None => Seq::empty(),
    };
    let system = if system_root_exists {
        seq![path_from("/etc/nixos"@)]
    } else {
        Seq::empty()
    };
    let working = match current {
        Some(dir) => seq![dir],
        None => Seq::empty(),
    };
    under_home + system + working
}

impl Walk {
    /// The scan that is about to begin on `roots`.
    pub open spec fn begin(roots: Seq<PathBuf>) -> Walk {
        Walk { stage: Stage::Probe, pending: roots.reverse(), entries: Seq::empty() }
    }

    /// What the scan asks next.
    pub open spec fn request(self) -> ScanRequest {
        if self.pending.len() == 0 {
            ScanRequest::Done
        } else {
            let dir = self.pending.last();
            match self.stage {
                Stage::Probe => ScanRequest::Probe { dir },
                Stage::Read(format) => ScanRequest::Read { dir, format },
                Stage::List => ScanRequest::List { dir },
            }
        }
    }

    /// The scan after `reply`.
    ///
    /// A probe that finds no directory drops it. Otherwise the preferred
    /// descriptor file is read, if there is one, and the directory is listed.
    /// A descriptor file adds an entry where it declares a descriptor, and
    /// nothing where it does not. A listing replaces the directory by those
    /// of its subdirectories that a scan goes into. A reply that does not
    /// answer the request changes nothing.
    pub open spec fn advance(self, reply: Reply) -> Walk {
        if self.pending.len() == 0 {
            self
        } else {
            let dir = self.pending.last();
            match (self.stage, reply) {
                (Stage::Probe, Reply::Probed { is_dir, has_toml, has_json }) => if !is_dir {
                    Walk { pending: self.pending.drop_last(), ..self }
                } else {
                    match preferred(has_toml, has_json) {
                        Some(format) => Walk { stage: Stage::Read(format), ..self },
                        None => Walk { stage: Stage::List, ..self },
                    }
                },
                (Stage::Read(format), Reply::Content(content)) => match declared(content, format) {
                    Some(config) => Walk {
                        stage: Stage::List,
                        entries: self.entries.push(Entry { config, path: dir }),
                        ..self
                    },
                    None => Walk { stage: Stage::List, ..self },
                },
                (Stage::List, Reply::Subdirectories(children)) => Walk {
                    stage: Stage::Probe,
                    pending: self.pending.drop_last() + stacked(children),
                    ..self
                },
                _ => self,
            }
        }
    }
}

/// The name of the descriptor file of `format`.
pub fn descriptor_file_name(format: Format) -> (name: &'static str)
    ensures
        name@ == file_name(format),
{
    match format {
        Format::Toml => "dotwell.toml",
        Format::Json => "dotwell.json",
    }
}

/// The system configuration directory, which a default scan searches where
/// it exists.
pub fn system_root() -> (path: PathBuf)
    ensures
        path == path_from("/etc/nixos"@),
{
    path_of("/etc/nixos")
}

/// Whether a scan passes over a directory of this name.
pub fn is_skipped(name: &String) -> (skip: bool)
    ensures
        skip == skipped(name@),
{
    let text = name.as_str();
    if text.unicode_len() > 0 && text.get_char(0) == '.' {
        return true;
    }
    text_is(name, "target") || text_is(name, "node_modules") || text_is(name, "build")
}

impl DotfileScanner {
    /// A scanner of the default search paths. The home directory is asked of
    /// the environment here; whether the system configuration directory
    /// exists, and the working directory if it is known, are the caller's to
    /// say.
    pub fn new(system_root_exists: bool, current: Option<PathBuf>) -> (scanner: DotfileScanner)
        ensures
            exists|home: Option<PathBuf>|
                scanner.roots() == default_roots(home, system_root_exists, current),
    {
        let home = home_directory();
        Self::from_environment(home, system_root_exists, current)
    }

    /// A scanner of the default search paths for the given home directory.
    pub fn from_environment(
        home: Option<PathBuf>,
        system_root_exists: bool,
        current: Option<PathBuf>,
    ) -> (scanner: DotfileScanner)
        ensures
            scanner.roots() == default_roots(home, system_root_exists, current),
    {
        let mut search_paths: Vec<PathBuf> = Vec::new();
        if let Some(home) = home {
            search_paths.push(join(&home, ".config"));
            search_paths.push(join(&home, "dotfiles"));
            search_paths.push(join(&home, ".dotfiles"));
        }
        if system_root_exists {
            search_paths.push(system_root());
        }
        if let Some(dir) = current {
            search_paths.push(dir);
        }
        proof {
            assert(search_paths@ =~= default_roots(home, system_root_exists, current));
        }
        DotfileScanner { search_paths }
    }

    /// A scanner of the given search paths.
    pub fn with_paths(paths: Vec<PathBuf>) -> (scanner: DotfileScanner)
        ensures
            scanner.roots() == paths@,
    {
        DotfileScanner { search_paths: paths }
    }

    /// The paths that a scan starts from, in the order it takes them.
    pub closed spec fn roots(&self) -> Seq<PathBuf> {
        self.search_paths@
    }

    /// The paths that a scan starts from, in the order it takes them.
    pub fn search_paths(&self) -> (paths: &Vec<PathBuf>)
        ensures
            paths@ == self.roots(),
    {
        &self.search_paths
    }

    /// Begins a scan of the search paths: nothing found yet, the first path
    /// to be probed first.
    pub fn scan(&self) -> (scan: Scan)
        ensures
            scan@ == Walk::begin(self.roots()),
    {
        let mut pending: Vec<PathBuf> = Vec::new();
        let mut i: usize = self.search_paths.len();
        while i > 0
            invariant
                0 <= i <= self.search_paths.len(),
                pending@.len() == self.search_paths.len() - i,
                forall|j: int|
                    0 <= j < pending@.len() ==> pending@[j] == self.search_paths@[
                        self.search_paths.len() - 1 - j
                    ],
            decreases i,
        {
            i -= 1;
            pending.push(self.search_paths[i].clone());
        }
        let entries: Vec<DotfileEntry> = Vec::new();
        proof {
            assert(pending@ =~= self.search_paths@.reverse());
            assert(entries_view(entries@) =~= Seq::<Entry>::empty());
        }
        Scan { stage: Stage::Probe, pending, entries }
    }
}

impl Scan {
    /// What the scan asks next.
    pub fn request(&self) -> (request: ScanRequest)
        ensures
            request == self@.request(),
    {
        if self.pending.len() == 0 {
            ScanRequest::Done
        } else {
            let dir = self.pending[self.pending.len() - 1].clone();
            match self.stage {
                Stage::Probe => ScanRequest::Probe { dir },
                Stage::Read(format) => ScanRequest::Read { dir, format },
                Stage::List => ScanRequest::List { dir },
            }
        }
    }

    /// Whether the scan is over.
    pub fn is_done(&self) -> (done: bool)
        ensures
            done == (self@.request() == ScanRequest::Done),
    {
        self.pending.len() == 0
    }

    /// The bundles found so far.
    pub fn entries(&self) -> (entries: &Vec<DotfileEntry>)
        ensures
            entries_view(entries@) == self@.entries,
    {
        &self.entries
    }

    /// Ends the scan and hands out the bundles found.
    pub fn into_entries(self) -> (entries: Vec<DotfileEntry>)
        ensures
            entries_view(entries@) == self@.entries,
    {
        self.entries
    }

    /// Takes the answer to the last request, and gives the next request.
    pub fn advance(&mut self, reply: ScanReply) -> (request: ScanRequest)
        ensures
            final(self)@ == old(self)@.advance(reply@),
            request == final(self)@.request(),
    {
        if self.pending.len() > 0 {
            match (self.stage, reply) {
                (Stage::Probe, ScanReply::Probed { is_dir, has_toml, has_json }) => {
                    if !is_dir {
                        self.pending.pop();
                    } else if has_toml {
                        self.stage = Stage::Read(Format::Toml);
                    } else if has_json {
                        self.stage = Stage::Read(Format::Json);
                    } else {
                        self.stage = Stage::List;
                    }
                },
                (Stage::Read(format), ScanReply::Content(content)) => {
                    self.stage = Stage::List;
                    if let Some(text) = content {
                        if let Ok(config) = DotfileConfig::parse(text.as_str(), format) {
                            let path = self.pending[self.pending.len() - 1].clone();
                            let ghost before = self.entries@;
                            let entry = DotfileEntry { config, path };
                            self.entries.push(entry);
                            proof {
                                assert(entries_view(self.entries@) =~= entries_view(before).push(
                                    entry@,
                                ));
                            }
                        }
                    }
                },
                (Stage::List, ScanReply::Subdirectories(children)) => {
                    self.stage = Stage::Probe;
                    self.pending.pop();
                    self.push_visited(&children);
                },
                _ => {},
            }
        }
        self.request()
    }

    /// Puts the subdirectories that a scan goes into on the pending
    /// directories, the first of the listing last.
    fn push_visited(&mut self, children: &Vec<Subdirectory>)
        ensures
            final(self).stage == old(self).stage,
            final(self).entries == old(self).entries,
            final(self).pending@ == old(self).pending@ + stacked(children_view(children@)),
    {
        let ghost base = self.pending@;
        let ghost listing = children_view(children@);
        let mut i: usize = children.len();
        proof {
            assert(listing.skip(i as int) =~= Seq::<Child>::empty());
            assert(base + Seq::<PathBuf>::empty() =~= base);
        }
        while i > 0
            invariant
                0 <= i <= children.len(),
                listing == children_view(children@),
                self.stage == old(self).stage,
                self.entries == old(self).entries,
                self.pending@ == base + stacked(listing.skip(i as int)),
            decreases i,
        {
            i -= 1;
            let child = &children[i];
            proof {
                let rest = listing.skip(i as int);
                assert(rest.drop_first() =~= listing.skip(i + 1));
                assert(rest[0] == child@);
            }
            let goes_in = match &child.name {
                Some(name) => !is_skipped(name),
                None => false,
            };
            if goes_in {
                self.pending.push(child.path.clone());
                proof {
                    assert(self.pending@ =~= base + stacked(listing.skip(i as int)));
                }
            }
        }
        proof {
            assert(listing.skip(0) =~= listing);
        }
    }
}

/// Every directory that a listing puts on the pending ones is a
/// subdirectory of the listing that a scan goes into: none is hidden, and
/// none holds build output.
pub proof fn lemma_stacked_are_visited(children: Seq<Child>, k: int)
    requires
        0 <= k < stacked(children).len(),
    ensures
        exists|i: int|
            0 <= i < children.len() && visited(#[trigger] children[i]) && children[i].path
                == stacked(children)[k],
    decreases children.len(),
{
    let rest = children.drop_first();
    if visited(children[0]) && k == stacked(rest).len() {
        assert(children[0].path == stacked(children)[k]);
    } else {
        lemma_stacked_are_visited(rest, k);
        let i = choose|i: int|
            0 <= i < rest.len() && visited(#[trigger] rest[i]) && rest[i].path == stacked(rest)[k];
        assert(children[i + 1] == rest[i]);
    }
}

/// A listing of nothing but hidden directories and build output puts
/// nothing on the pending directories.
pub proof fn lemma_skipped_are_not_stacked(children: Seq<Child>)
    requires
        forall|i: int| 0 <= i < children.len() ==> !visited(#[trigger] children[i]),
    ensures
        stacked(children) == Seq::<PathBuf>::empty(),
    decreases children.len(),
{
    if children.len() > 0 {
        let rest = children.drop_first();
        assert forall|i: int| 0 <= i < rest.len() implies !visited(#[trigger] rest[i]) by {
            assert(rest[i] == children[i + 1]);
        }
        lemma_skipped_are_not_stacked(rest);
    }
}

/// Whatever the reply, a directory that is pending after it was pending
/// before it, or is a subdirectory of the listing given that a scan goes
/// into. As a scan asks about pending directories only, it never asks about
/// a directory that a listing showed as hidden or as build output.
pub proof fn lemma_pending_comes_from_visited(walk: Walk, reply: Reply, k: int)
    requires
        0 <= k < walk.advance(reply).pending.len(),
    ensures
        walk.pending.contains(walk.advance(reply).pending[k]) || (reply is Subdirectories
            && exists|i: int|
            0 <= i < reply->Subdirectories_0.len() && visited(
                #[trigger] reply->Subdirectories_0[i],
            ) && reply->Subdirectories_0[i].path == walk.advance(reply).pending[k]),
{
    let after = walk.advance(reply);
    if walk.pending.len() > 0 && walk.stage == Stage::List && reply is Subdirectories {
        let children = reply->Subdirectories_0;
        let kept = walk.pending.drop_last();
        if k < kept.len() {
            assert(after.pending[k] == walk.pending[k]);
        } else {
            lemma_stacked_are_visited(children, k - kept.len());
            assert(after.pending[k] == stacked(children)[k - kept.len()]);
        }
    } else {
        assert(after.pending[k] == walk.pending[k]);
    }
}

/// No reply adds more than one entry. One is added only by the text of a
/// descriptor file that declares a bundle, for the directory being visited,
/// and the scan then goes on to list that directory: no directory gives a
/// second entry.
pub proof fn lemma_one_entry_at_most(walk: Walk, reply: Reply)
    ensures
        walk.advance(reply).entries == walk.entries || ({
            &&& walk.pending.len() > 0
            &&& walk.stage is Read
            &&& reply is Content
            &&& declared(reply->Content_0, walk.stage->Read_0) is Some
            &&& walk.advance(reply).stage == Stage::List
            &&& walk.advance(reply).entries == walk.entries.push(
                Entry {
                    config: declared(reply->Content_0, walk.stage->Read_0)->0,
                    path: walk.pending.last(),
                },
            )
        }),
{
}

/// In a directory that holds both descriptor files, the TOML one is read,
/// and once it is read the directory is listed: the JSON one is never asked
/// for, whatever the TOML one holds.
pub proof fn lemma_toml_is_preferred(walk: Walk, content: Option<Seq<char>>)
    requires
        walk.pending.len() > 0,
        walk.stage == Stage::Probe,
    ensures
        ({
            let probed = walk.advance(Reply::Probed { is_dir: true, has_toml: true, has_json: true });
            let read = probed.advance(Reply::Content(content));
            &&& probed.request() == ScanRequest::Read { dir: walk.pending.last(), format: Format::Toml }
            &&& read.request() == ScanRequest::List { dir: walk.pending.last() }
            &&& read.entries == match declared(content, Format::Toml) {
                Some(config) => walk.entries.push(Entry { config, path: walk.pending.last() }),
                None => walk.entries,
            }
        }),
{
}

/// A descriptor file that cannot be read, or whose text declares no
/// descriptor, adds no entry, and the scan goes on to list the directory.
pub proof fn lemma_malformed_is_passed_over(walk: Walk, content: Option<Seq<char>>)
    requires
        walk.pending.len() > 0,
        walk.stage is Read,
        declared(content, walk.stage->Read_0) is None,
    ensures
        walk.advance(Reply::Content(content)).entries == walk.entries,
        walk.advance(Reply::Content(content)).request() == (ScanRequest::List {
            dir: walk.pending.last(),
        }),
{
}

} // verus!
