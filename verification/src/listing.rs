//! The plain-text listing of the bundles that a scan found.

use vstd::prelude::*;
use crate::config::{entries_view, get_compiler_name, DotfileEntry, Entry};
use crate::paths::{show, shown};

verus! {

/// The character of a decimal digit.
pub open spec fn digit(d: nat) -> char
    recommends
        d < 10,
{
    if d == 0 {
        '0'
    } else if d == 1 {
        '1'
    } else if d == 2 {
        '2'
    } else if d == 3 {
        '3'
    } else if d == 4 {
        '4'
    } else if d == 5 {
        '5'
    } else if d == 6 {
        '6'
    } else if d == 7 {
        '7'
    } else if d == 8 {
        '8'
    } else {
        '9'
    }
}

/// A number in decimal digits, without leading zeros.
pub open spec fn decimal(n: nat) -> Seq<char>
    decreases n,
{
    if n < 10 {
        seq![digit(n)]
    } else {
        decimal(n / 10).push(digit(n % 10))
    }
}

/// The texts of a list with `separator` between each two of them.
pub open spec fn separated(texts: Seq<Seq<char>>, separator: Seq<char>) -> Seq<char>
    decreases texts.len(),
{
    if texts.len() == 0 {
        Seq::empty()
    } else if texts.len() == 1 {
        texts[0]
    } else {
        separated(texts.drop_last(), separator) + separator + texts.last()
    }
}

/// The lines that show the bundle at position `index` of the listing, which
/// counts from one: its name and compiler, its description, path and
/// category, its dependencies, and an empty line.
pub open spec fn item_text(index: nat, entry: Entry) -> Seq<char> {
    decimal(index + 1) + ". "@ + entry.config.name + " ["@ + entry.config.compiler.name() + "]\n"@
        + "   "@ + entry.config.description + "\n"@ + "   Path: "@ + shown(entry.path) + "\n"@
        + "   Category: "@ + entry.config.category + "\n"@ + "   Dependencies: "@ + separated(
        entry.config.dependencies,
        ", "@,
    ) + "\n\n"@
}

/// The lines of the first `count` bundles.
pub open spec fn items_text(entries: Seq<Entry>, count: nat) -> Seq<char>
    decreases count,
{
    if count == 0 {
        Seq::empty()
    } else {
        items_text(entries, (count - 1) as nat) + item_text(
            (count - 1) as nat,
            entries[count - 1],
        )
    }
}

/// How many bundles were found, in words: "configuration" for one, and
/// "configurations" for any other number.
pub open spec fn summary_text(count: nat) -> Seq<char> {
    "Found "@ + decimal(count) + " dotfile configuration"@ + if count == 1 {
        ""@
    } else {
        "s"@
    }
}

/// The line that heads a listing of `count` bundles, and the empty line
/// after it.
pub open spec fn heading(count: nat) -> Seq<char> {
    summary_text(count) + ":\n\n"@
}

/// What is shown where no bundle was found.
pub open spec fn nothing_found() -> Seq<char> {
    "No dotfiles found.\n\nCreate a dotwell.toml or dotwell.json file in your dotfiles directory.\n"@
}

/// The listing of the bundles found.
pub open spec fn listing_text(entries: Seq<Entry>) -> Seq<char> {
    if entries.len() == 0 {
        nothing_found()
    } else {
        heading(entries.len()) + items_text(entries, entries.len())
    }
}

fn digit_text(d: usize) -> (text: &'static str)
    requires
        d < 10,
    ensures
        text@ == seq![digit(d as nat)],
{
    proof {
        reveal_strlit("0");
        reveal_strlit("1");
        reveal_strlit("2");
        reveal_strlit("3");
        reveal_strlit("4");
        reveal_strlit("5");
        reveal_strlit("6");
        reveal_strlit("7");
        reveal_strlit("8");
        reveal_strlit("9");
    }
    let text = if d == 0 {
        "0"
    } else if d == 1 {
        "1"
    } else if d == 2 {
        "2"
    } else if d == 3 {
        "3"
    } else if d == 4 {
        "4"
    } else if d == 5 {
        "5"
    } else if d == 6 {
        "6"
    } else if d == 7 {
        "7"
    } else if d == 8 {
        "8"
    } else {
        "9"
    };
    proof {
        assert(text@ =~= seq![digit(d as nat)]);
    }
    text
}

/// Writes a number in decimal digits.
pub fn decimal_text(n: usize) -> (text: String)
    ensures
        text@ == decimal(n as nat),
    decreases n,
{
    if n < 10 {
        String::from_str(digit_text(n))
    } else {
        let mut text = decimal_text(n / 10);
        text.append(digit_text(n % 10));
        proof {
            assert(text@ =~= decimal((n / 10) as nat).push(digit((n % 10) as nat)));
        }
        text
    }
}

/// Joins texts with `separator` between each two of them.
pub fn join_texts(texts: &Vec<String>, separator: &str) -> (joined: String)
    ensures
        joined@ == separated(texts.deep_view(), separator@),
{
    let mut joined = String::new();
    let mut i: usize = 0;
    let ghost all = texts.deep_view();
    while i < texts.len()
        invariant
            0 <= i <= texts.len(),
            all == texts.deep_view(),
            all.len() == texts@.len(),
            joined@ == separated(all.take(i as int), separator@),
        decreases texts.len() - i,
    {
        proof {
            let upto = all.take(i + 1);
            assert(upto.drop_last() =~= all.take(i as int));
            assert(upto.last() == texts@[i as int]@);
            if i == 0 {
                assert(joined@ + texts@[i as int]@ =~= upto[0]);
            }
        }
        if i > 0 {
            joined.append(separator);
        }
        joined.append(texts[i].as_str());
        i += 1;
    }
    proof {
        assert(all.take(texts@.len() as int) =~= all);
    }
    joined
}

fn item(index: usize, entry: &DotfileEntry) -> (text: String)
    requires
        index < usize::MAX,
    ensures
        text@ == item_text(index as nat, entry@),
{
    let mut text = decimal_text(index + 1);
    text.append(". ");
    text.append(entry.config.name.as_str());
    text.append(" [");
    text.append(get_compiler_name(&entry.config.compiler));
    text.append("]\n");
    text.append("   ");
    text.append(entry.config.description.as_str());
    text.append("\n");
    text.append("   Path: ");
    text.append(show(&entry.path).as_str());
    text.append("\n");
    text.append("   Category: ");
    text.append(entry.config.category.as_str());
    text.append("\n");
    text.append("   Dependencies: ");
    text.append(join_texts(&entry.config.dependencies, ", ").as_str());
    text.append("\n\n");
    text
}

/// Says how many bundles were found.
pub fn summary(count: usize) -> (text: String)
    ensures
        text@ == summary_text(count as nat),
{
    let mut text = String::from_str("Found ");
    text.append(decimal_text(count).as_str());
    text.append(" dotfile configuration");
    if count == 1 {
        text.append("");
    } else {
        text.append("s");
    }
    text
}

/// The listing of the bundles found, ready to be printed: a heading with
/// their number and then each bundle in turn, or a hint where there is none.
pub fn listing(dotfiles: &Vec<DotfileEntry>) -> (text: String)
    ensures
        text@ == listing_text(entries_view(dotfiles@)),
{
    let ghost entries = entries_view(dotfiles@);
    if dotfiles.len() == 0 {
        return String::from_str(
            "No dotfiles found.\n\nCreate a dotwell.toml or dotwell.json file in your dotfiles directory.\n",
        );
    }
    let mut text = summary(dotfiles.len());
    text.append(":\n\n");
    proof {
        assert(text@ =~= heading(entries.len()) + items_text(entries, 0));
    }
    let mut i: usize = 0;
    while i < dotfiles.len()
        invariant
            0 <= i <= dotfiles.len(),
            entries == entries_view(dotfiles@),
            entries.len() == dotfiles@.len(),
            text@ == heading(entries.len()) + items_text(entries, i as nat),
        decreases dotfiles.len() - i,
    {
        let shown_item = item(i, &dotfiles[i]);
        text.append(shown_item.as_str());
        proof {
            assert(entries[i as int] == dotfiles@[i as int]@);
            assert(text@ =~= heading(entries.len()) + items_text(entries, (i + 1) as nat));
        }
        i += 1;
    }
    text
}

} // verus!
