//! Bundle descriptors: their shape, and how one is read from a document.

use vstd::prelude::*;
use std::path::PathBuf;
use crate::document::{
    all_texts, find, found_doc, json_document, lemma_list_view, lemma_table_view, member,
    member_from, parse_json, parse_toml, strings_of, text_is, toml_document, Doc, Member, Node,
};

verus! {

/// The two encodings a descriptor file can have.
#[derive(Debug, Clone, Copy, PartialEq, Eq, Structural)]
pub enum Format {
    Toml,
    Json,
}

/// Why a descriptor could not be read.
#[derive(Debug, Clone, Copy, PartialEq, Eq, Structural)]
pub enum ConfigError {
    /// The text is not a document of its format, or the document does not
    /// have the shape of a descriptor.
    MalformedDescriptor,
}

/// The mathematical value of a [`Compiler`].
pub enum CompilerSpec {
    Gcc { flags: Option<Seq<Seq<char>>> },
    Make { target: Option<Seq<char>> },
    Cargo { release: Option<bool> },
    Nix { flake: Option<bool> },
}

/// The mathematical value of a [`DotfileConfig`].
pub struct Descriptor {
    pub name: Seq<char>,
    pub description: Seq<char>,
    pub category: Seq<char>,
    pub compiler: CompilerSpec,
    pub dependencies: Seq<Seq<char>>,
    pub files: Seq<Seq<char>>,
}

/// The tool that installs a bundle, with the options given for it.
#[derive(Debug, Clone, PartialEq, Eq)]
pub enum Compiler {
    Gcc { flags: Option<Vec<String>> },
    Make { target: Option<String> },
    Cargo { release: Option<bool> },
    Nix { flake: Option<bool> },
}

/// What a descriptor file declares of its bundle.
#[derive(Debug, Clone, PartialEq, Eq)]
pub struct DotfileConfig {
    pub name: String,
    pub description: String,
    pub category: String,
    pub compiler: Compiler,
    pub dependencies: Vec<String>,
    pub files: Vec<String>,
}

/// A descriptor together with the directory it was found in.
#[derive(Debug, Clone)]
pub struct DotfileEntry {
    pub config: DotfileConfig,
    pub path: PathBuf,
}

/// The mathematical value of a [`DotfileEntry`].
pub struct Entry {
    pub config: Descriptor,
    pub path: PathBuf,
}

/// The characters of an optional string.
pub open spec fn text_view(text: Option<String>) -> Option<Seq<char>> {
    match text {
        Some(s) => Some(s@),
        None => None,
    }
}

/// The characters of each string of an optional list.
pub open spec fn texts_view(texts: Option<Vec<String>>) -> Option<Seq<Seq<char>>> {
    match texts {
        Some(v) => Some(v.deep_view()),
        None => None,
    }
}

impl View for Compiler {
    type V = CompilerSpec;

    open spec fn view(&self) -> CompilerSpec {
        match *self {
            Compiler::Gcc { flags } => CompilerSpec::Gcc { flags: texts_view(flags) },
            Compiler::Make { target } => CompilerSpec::Make { target: text_view(target) },
            Compiler::Cargo { release } => CompilerSpec::Cargo { release },
            Compiler::Nix { flake } => CompilerSpec::Nix { flake },
        }
    }
}

impl View for DotfileConfig {
    type V = Descriptor;

    open spec fn view(&self) -> Descriptor {
        Descriptor {
            name: self.name@,
            description: self.description@,
            category: self.category@,
            compiler: self.compiler@,
            dependencies: self.dependencies.deep_view(),
            files: self.files.deep_view(),
        }
    }
}

impl View for DotfileEntry {
    type V = Entry;

    open spec fn view(&self) -> Entry {
        Entry { config: self.config@, path: self.path }
    }
}

/// The mathematical values of a list of entries.
pub open spec fn entries_view(entries: Seq<DotfileEntry>) -> Seq<Entry> {
    entries.map_values(|e: DotfileEntry| e@)
}

impl CompilerSpec {
    /// The lower-case name of the tool.
    pub open spec fn name(self) -> Seq<char> {
        match self {
            CompilerSpec::Gcc { .. } => "gcc"@,
            CompilerSpec::Make { .. } => "make"@,
            CompilerSpec::Cargo { .. } => "cargo"@,
            CompilerSpec::Nix { .. } => "nix"@,
        }
    }
}

/// The lower-case name of a compiler's tool, as shown to the user.
pub fn get_compiler_name(compiler: &Compiler) -> (name: &'static str)
    ensures
        name@ == compiler@.name(),
{
    match compiler {
        Compiler::Gcc { .. } => "gcc",
        Compiler::Make { .. } => "make",
        Compiler::Cargo { .. } => "cargo",
        Compiler::Nix { .. } => "nix",
    }
}

/// A field that must hold a string.
pub open spec fn required_text(field: Option<Doc>) -> Option<Seq<char>> {
    match field {
        Some(Doc::Text(s)) => Some(s),
        _ => None,
    }
}

/// A field that holds a string, and stands for the empty one where it is
/// absent.
pub open spec fn text_or_empty(field: Option<Doc>) -> Option<Seq<char>> {
    match field {
        None => Some(Seq::empty()),
        Some(Doc::Text(s)) => Some(s),
        _ => None,
    }
}

/// A field that holds an array of strings, and stands for the empty one where
/// it is absent.
pub open spec fn texts_or_empty(field: Option<Doc>) -> Option<Seq<Seq<char>>> {
    match field {
        None => Some(Seq::empty()),
        Some(Doc::List(items)) => all_texts(items),
        _ => None,
    }
}

/// A field that may be absent or null, and holds a string otherwise.
pub open spec fn optional_text(field: Option<Doc>) -> Option<Option<Seq<char>>> {
    match field {
        None => Some(None),
        Some(Doc::Null) => Some(None),
        Some(Doc::Text(s)) => Some(Some(s)),
        _ => None,
    }
}

/// A field that may be absent or null, and holds a boolean otherwise.
pub open spec fn optional_flag(field: Option<Doc>) -> Option<Option<bool>> {
    match field {
        None => Some(None),
        Some(Doc::Null) => Some(None),
        Some(Doc::Flag(b)) => Some(Some(b)),
        _ => None,
    }
}

/// A field that may be absent or null, and holds an array of strings
/// otherwise.
pub open spec fn optional_texts(field: Option<Doc>) -> Option<Option<Seq<Seq<char>>>> {
    match field {
        None => Some(None),
        Some(Doc::Null) => Some(None),
        Some(Doc::List(items)) => match all_texts(items) {
            Some(texts) => Some(Some(texts)),
            None => None,
        },
        _ => None,
    }
}

/// The compiler that a `compiler` field declares: a table whose `type` names
/// one of the four tools, with that tool's own option well-formed.
pub open spec fn compiler_of(field: Option<Doc>) -> Option<CompilerSpec> {
    match field {
        Some(Doc::Table(t)) => match member(t, "type"@) {
            Some(Doc::Text(kind)) => if kind == "gcc"@ {
                match optional_texts(member(t, "flags"@)) {
                    Some(flags) => Some(CompilerSpec::Gcc { flags }),
                    None => None,
                }
            } else if kind == "make"@ {
                match optional_text(member(t, "target"@)) {
                    Some(target) => Some(CompilerSpec::Make { target }),
                    None => None,
                }
            } else if kind == "cargo"@ {
                match optional_flag(member(t, "release"@)) {
                    Some(release) => Some(CompilerSpec::Cargo { release }),
                    None => None,
                }
            } else if kind == "nix"@ {
                match optional_flag(member(t, "flake"@)) {
                    Some(flake) => Some(CompilerSpec::Nix { flake }),
                    None => None,
                }
            } else {
                None
            },
            _ => None,
        },
        _ => None,
    }
}

/// The descriptor that a document declares, if it has the shape of one: a
/// table with a string `name` and a well-formed `compiler`, whose
/// `description`, `category`, `dependencies` and `files` are of their kind
/// where present and empty where absent. Keys that a descriptor does not know
/// are passed over.
pub open spec fn descriptor_of(doc: Doc) -> Option<Descriptor> {
    match doc {
        Doc::Table(t) => match (
            required_text(member(t, "name"@)),
            text_or_empty(member(t, "description"@)),
            text_or_empty(member(t, "category"@)),
            compiler_of(member(t, "compiler"@)),
            texts_or_empty(member(t, "dependencies"@)),
            texts_or_empty(member(t, "files"@)),
        ) {
            (
                Some(name),
                Some(description),
                Some(category),
                Some(compiler),
                Some(dependencies),
                Some(files),
            ) => Some(Descriptor { name, description, category, compiler, dependencies, files }),
            _ => None,
        },
        _ => None,
    }
}

/// An array of strings.
pub open spec fn text_list(texts: Seq<Seq<char>>) -> Doc {
    Doc::List(Seq::new(texts.len(), |i: int| Doc::Text(texts[i])))
}

/// The table that declares a compiler: its `type`, and its option where one
/// is given.
pub open spec fn compiler_document(compiler: CompilerSpec) -> Doc {
    match compiler {
        CompilerSpec::Gcc { flags } => Doc::Table(
            match flags {
                Some(flags) => seq![("type"@, Doc::Text("gcc"@)), ("flags"@, text_list(flags))],
                None => seq![("type"@, Doc::Text("gcc"@))],
            },
        ),
        CompilerSpec::Make { target } => Doc::Table(
            match target {
                Some(target) => seq![("type"@, Doc::Text("make"@)), ("target"@, Doc::Text(target))],
                None => seq![("type"@, Doc::Text("make"@))],
            },
        ),
        CompilerSpec::Cargo { release } => Doc::Table(
            match release {
                Some(release) => seq![
                    ("type"@, Doc::Text("cargo"@)),
                    ("release"@, Doc::Flag(release)),
                ],
                None => seq![("type"@, Doc::Text("cargo"@))],
            },
        ),
        CompilerSpec::Nix { flake } => Doc::Table(
            match flake {
                Some(flake) => seq![("type"@, Doc::Text("nix"@)), ("flake"@, Doc::Flag(flake))],
                None => seq![("type"@, Doc::Text("nix"@))],
            },
        ),
    }
}

/// The document that declares a descriptor, with every field written out.
pub open spec fn document_of(descriptor: Descriptor) -> Doc {
    Doc::Table(
        seq![
            ("name"@, Doc::Text(descriptor.name)),
            ("description"@, Doc::Text(descriptor.description)),
            ("category"@, Doc::Text(descriptor.category)),
            ("compiler"@, compiler_document(descriptor.compiler)),
            ("dependencies"@, text_list(descriptor.dependencies)),
            ("files"@, text_list(descriptor.files)),
        ],
    )
}

/// The document that a text of the given format parses to.
pub open spec fn document_in(content: Seq<char>, format: Format) -> Option<Doc> {
    match format {
        Format::Toml => toml_document(content),
        Format::Json => json_document(content),
    }
}

/// The descriptor that a text of the given format declares.
pub open spec fn parsed(content: Seq<char>, format: Format) -> Option<Descriptor> {
    match document_in(content, format) {
        Some(doc) => descriptor_of(doc),
        None => None,
    }
}

fn read_required_text(found: Option<&Node>) -> (text: Option<String>)
    ensures
        text_view(text) == required_text(found_doc(found)),
{
    match found {
        Some(Node::Text(s)) => Some(s.clone()),
        _ => None,
    }
}

fn read_text_or_empty(found: Option<&Node>) -> (text: Option<String>)
    ensures
        text_view(text) == text_or_empty(found_doc(found)),
{
    match found {
        None => Some(String::new()),
        Some(Node::Text(s)) => Some(s.clone()),
        _ => None,
    }
}

fn read_texts_or_empty(found: Option<&Node>) -> (texts: Option<Vec<String>>)
    ensures
        texts_view(texts) == texts_or_empty(found_doc(found)),
{
    match found {
        None => {
            let empty: Vec<String> = Vec::new();
            assert(empty.deep_view() =~= Seq::<Seq<char>>::empty());
            Some(empty)
        },
        Some(Node::List(items)) => strings_of(items),
        _ => None,
    }
}

fn read_optional_text(found: Option<&Node>) -> (text: Option<Option<String>>)
    ensures
        match text {
            Some(t) => optional_text(found_doc(found)) == Some(text_view(t)),
            None => optional_text(found_doc(found)).is_none(),
        },
{
    match found {
        None => Some(None),
        Some(Node::Null) => Some(None),
        Some(Node::Text(s)) => Some(Some(s.clone())),
        _ => None,
    }
}

fn read_optional_flag(found: Option<&Node>) -> (flag: Option<Option<bool>>)
    ensures
        flag == optional_flag(found_doc(found)),
{
    match found {
        None => Some(None),
        Some(Node::Null) => Some(None),
        Some(Node::Flag(b)) => Some(Some(*b)),
        _ => None,
    }
}

fn read_optional_texts(found: Option<&Node>) -> (texts: Option<Option<Vec<String>>>)
    ensures
        match texts {
            Some(t) => optional_texts(found_doc(found)) == Some(texts_view(t)),
            None => optional_texts(found_doc(found)).is_none(),
        },
{
    match found {
        None => Some(None),
        Some(Node::Null) => Some(None),
        Some(Node::List(items)) => match strings_of(items) {
            Some(v) => Some(Some(v)),
            None => None,
        },
        _ => None,
    }
}

fn read_compiler(found: Option<&Node>) -> (compiler: Option<Compiler>)
    ensures
        match compiler {
            Some(c) => compiler_of(found_doc(found)) == Some(c@),
            None => compiler_of(found_doc(found)).is_none(),
        },
{
    let members = match found {
        Some(Node::Table(members)) => members,
        _ => { return None; },
    };
    let kind = match find(members, "type") {
        Some(Node::Text(kind)) => kind,
        _ => { return None; },
    };
    if text_is(kind, "gcc") {
        match read_optional_texts(find(members, "flags")) {
            Some(flags) => Some(Compiler::Gcc { flags }),
            None => None,
        }
    } else if text_is(kind, "make") {
        match read_optional_text(find(members, "target")) {
            Some(target) => Some(Compiler::Make { target }),
            None => None,
        }
    } else if text_is(kind, "cargo") {
        match read_optional_flag(find(members, "release")) {
            Some(release) => Some(Compiler::Cargo { release }),
            None => None,
        }
    } else if text_is(kind, "nix") {
        match read_optional_flag(find(members, "flake")) {
            Some(flake) => Some(Compiler::Nix { flake }),
            None => None,
        }
    } else {
        None
    }
}

fn list_node(texts: &Vec<String>) -> (node: Node)
    ensures
        node@ == text_list(texts.deep_view()),
{
    let mut items: Vec<Node> = Vec::new();
    let mut i: usize = 0;
    while i < texts.len()
        invariant
            0 <= i <= texts.len(),
            items@.len() == i,
            forall|j: int| 0 <= j < i ==> (#[trigger] items@[j]).doc() == Doc::Text(texts@[j]@),
        decreases texts.len() - i,
    {
        items.push(Node::Text(texts[i].clone()));
        i += 1;
    }
    proof {
        lemma_list_view(items);
        assert(Node::List(items)@->List_0 =~= text_list(texts.deep_view())->List_0);
    }
    Node::List(items)
}

fn table_node(members: Vec<Member>) -> (node: Node)
    ensures
        node@ is Table,
        node@->Table_0.len() == members@.len(),
        forall|i: int|
            0 <= i < members@.len() ==> (#[trigger] node@->Table_0[i]) == (
                members@[i].key@,
                members@[i].value@,
            ),
{
    proof {
        lemma_table_view(members);
    }
    Node::Table(members)
}

fn keyed(key: &str, value: Node) -> (entry: Member)
    ensures
        entry.key@ == key@,
        entry.value == value,
{
    Member { key: String::from_str(key), value }
}

impl Compiler {
    /// The table that declares this compiler.
    pub fn to_document(&self) -> (node: Node)
        ensures
            node@ == compiler_document(self@),
    {
        let mut members: Vec<Member> = Vec::new();
        match self {
            Compiler::Gcc { flags } => {
                members.push(keyed("type", Node::Text(String::from_str("gcc"))));
                if let Some(flags) = flags {
                    members.push(keyed("flags", list_node(flags)));
                }
            },
            Compiler::Make { target } => {
                members.push(keyed("type", Node::Text(String::from_str("make"))));
                if let Some(target) = target {
                    members.push(keyed("target", Node::Text(target.clone())));
                }
            },
            Compiler::Cargo { release } => {
                members.push(keyed("type", Node::Text(String::from_str("cargo"))));
                if let Some(release) = release {
                    members.push(keyed("release", Node::Flag(*release)));
                }
            },
            Compiler::Nix { flake } => {
                members.push(keyed("type", Node::Text(String::from_str("nix"))));
                if let Some(flake) = flake {
                    members.push(keyed("flake", Node::Flag(*flake)));
                }
            },
        }
        let node = table_node(members);
        proof {
            assert(node@->Table_0 =~= compiler_document(self@)->Table_0);
        }
        node
    }
}

impl DotfileConfig {
    /// The document that declares this descriptor. Reading it gives the
    /// descriptor back: see [`lemma_round_trip`].
    pub fn to_document(&self) -> (node: Node)
        ensures
            node@ == document_of(self@),
    {
        let mut members: Vec<Member> = Vec::new();
        members.push(keyed("name", Node::Text(self.name.clone())));
        members.push(keyed("description", Node::Text(self.description.clone())));
        members.push(keyed("category", Node::Text(self.category.clone())));
        members.push(keyed("compiler", self.compiler.to_document()));
        members.push(keyed("dependencies", list_node(&self.dependencies)));
        members.push(keyed("files", list_node(&self.files)));
        let node = table_node(members);
        proof {
            assert(node@->Table_0 =~= document_of(self@)->Table_0);
        }
        node
    }

    /// Reads a descriptor from a parsed document. Succeeds exactly on the
    /// documents that have the shape of a descriptor, with the descriptor
    /// that [`descriptor_of`] gives.
    pub fn from_document(doc: &Node) -> (read: Result<DotfileConfig, ConfigError>)
        ensures
            match read {
                Ok(config) => descriptor_of(doc@) == Some(config@),
                Err(e) => descriptor_of(doc@).is_none() && e == ConfigError::MalformedDescriptor,
            },
    {
        let members = match doc {
            Node::Table(members) => members,
            _ => { return Err(ConfigError::MalformedDescriptor); },
        };
        let name = read_required_text(find(members, "name"));
        let description = read_text_or_empty(find(members, "description"));
        let category = read_text_or_empty(find(members, "category"));
        let compiler = read_compiler(find(members, "compiler"));
        let dependencies = read_texts_or_empty(find(members, "dependencies"));
        let files = read_texts_or_empty(find(members, "files"));
        match (name, description, category, compiler, dependencies, files) {
            (
                Some(name),
                Some(description),
                Some(category),
                Some(compiler),
                Some(dependencies),
                Some(files),
            ) => Ok(DotfileConfig { name, description, category, compiler, dependencies, files }),
            _ => Err(ConfigError::MalformedDescriptor),
        }
    }

    /// Reads a descriptor from the text of a file in the given format. Fails
    /// with [`ConfigError::MalformedDescriptor`] exactly where the text does
    /// not parse or the document is no descriptor.
    pub fn parse(content: &str, format: Format) -> (read: Result<DotfileConfig, ConfigError>)
        ensures
            match read {
                Ok(config) => parsed(content@, format) == Some(config@),
                Err(e) => parsed(content@, format).is_none() && e
                    == ConfigError::MalformedDescriptor,
            },
    {
        match format {
            Format::Toml => Self::from_toml(content),
            Format::Json => Self::from_json(content),
        }
    }

    /// Reads a descriptor from the text of a `dotwell.toml`.
    pub fn from_toml(content: &str) -> (read: Result<DotfileConfig, ConfigError>)
        ensures
            match read {
                Ok(config) => parsed(content@, Format::Toml) == Some(config@),
                Err(e) => parsed(content@, Format::Toml).is_none() && e
                    == ConfigError::MalformedDescriptor,
            },
    {
        match parse_toml(content) {
            Ok(doc) => Self::from_document(&doc),
            Err(_) => Err(ConfigError::MalformedDescriptor),
        }
    }

    /// Reads a descriptor from the text of a `dotwell.json`.
    pub fn from_json(content: &str) -> (read: Result<DotfileConfig, ConfigError>)
        ensures
            match read {
                Ok(config) => parsed(content@, Format::Json) == Some(config@),
                Err(e) => parsed(content@, Format::Json).is_none() && e
                    == ConfigError::MalformedDescriptor,
            },
    {
        match parse_json(content) {
            Ok(doc) => Self::from_document(&doc),
            Err(_) => Err(ConfigError::MalformedDescriptor),
        }
    }
}

proof fn lemma_texts_of_list(texts: Seq<Seq<char>>)
    ensures
        all_texts(text_list(texts)->List_0) == Some(texts),
{
    let items = text_list(texts)->List_0;
    assert(Seq::new(items.len(), |i: int| items[i]->Text_0) =~= texts);
}

proof fn lemma_compiler_round_trip(compiler: CompilerSpec)
    ensures
        compiler_of(Some(compiler_document(compiler))) == Some(compiler),
{
    reveal_with_fuel(member_from, 3);
    reveal_strlit("type");
    reveal_strlit("flags");
    reveal_strlit("target");
    reveal_strlit("release");
    reveal_strlit("flake");
    reveal_strlit("gcc");
    reveal_strlit("make");
    reveal_strlit("cargo");
    reveal_strlit("nix");
    let t = compiler_document(compiler)->Table_0;
    assert(t[0].0 == "type"@);
    assert("type"@[0] != "flags"@[0]);
    assert("type"@[1] != "target"@[1]);
    assert("type"@[0] != "release"@[0]);
    assert("type"@[0] != "flake"@[0]);
    assert("gcc"@[0] != "make"@[0] && "gcc"@[0] != "cargo"@[0] && "gcc"@[0] != "nix"@[0]);
    assert("make"@[0] != "cargo"@[0] && "make"@[0] != "nix"@[0] && "cargo"@[0] != "nix"@[0]);
    match compiler {
        CompilerSpec::Gcc { flags } => {
            if let Some(flags) = flags {
                lemma_texts_of_list(flags);
                assert(t[1].0 == "flags"@);
            }
        },
        CompilerSpec::Make { target } => {
            if target is Some {
                assert(t[1].0 == "target"@);
            }
        },
        CompilerSpec::Cargo { release } => {
            if release is Some {
                assert(t[1].0 == "release"@);
            }
        },
        CompilerSpec::Nix { flake } => {
            if flake is Some {
                assert(t[1].0 == "flake"@);
            }
        },
    }
}

/// Writing a descriptor out as a document and reading that document gives
/// the descriptor back, field for field.
pub proof fn lemma_round_trip(descriptor: Descriptor)
    ensures
        descriptor_of(document_of(descriptor)) == Some(descriptor),
{
    reveal_with_fuel(member_from, 7);
    reveal_strlit("name");
    reveal_strlit("description");
    reveal_strlit("category");
    reveal_strlit("compiler");
    reveal_strlit("dependencies");
    reveal_strlit("files");
    let t = document_of(descriptor)->Table_0;
    assert(t[0].0 == "name"@ && t[1].0 == "description"@ && t[2].0 == "category"@);
    assert(t[3].0 == "compiler"@ && t[4].0 == "dependencies"@ && t[5].0 == "files"@);
    assert("name"@[0] != "description"@[0] && "name"@[0] != "category"@[0]);
    assert("name"@[0] != "dependencies"@[0] && "name"@[0] != "files"@[0]);
    assert("description"@[0] != "category"@[0] && "description"@[0] != "files"@[0]);
    assert("description"@[2] != "dependencies"@[2]);
    assert("category"@[1] != "compiler"@[1]);
    assert("category"@[0] != "dependencies"@[0] && "category"@[0] != "files"@[0]);
    assert("compiler"@[0] != "name"@[0] && "compiler"@[0] != "description"@[0]);
    assert("compiler"@[0] != "dependencies"@[0] && "compiler"@[0] != "files"@[0]);
    assert("dependencies"@[0] != "files"@[0]);
    assert(member(t, "name"@) == Some(t[0].1));
    assert(member(t, "description"@) == Some(t[1].1));
    assert(member(t, "category"@) == Some(t[2].1));
    assert(member(t, "compiler"@) == Some(t[3].1));
    assert(member(t, "dependencies"@) == Some(t[4].1));
    assert(member(t, "files"@) == Some(t[5].1));
    lemma_compiler_round_trip(descriptor.compiler);
    lemma_texts_of_list(descriptor.dependencies);
    lemma_texts_of_list(descriptor.files);
}

} // verus!
