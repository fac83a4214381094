//! Which script implements a tool, and the scripts the bridge carries with it
//! for installing when none is found on disk.

use vstd::prelude::*;
use crate::text::same_text;

verus! {

/// The base name of the script that implements `tool`: two tools have a name
/// of their own, every other tool's name is its identifier without the
/// underscores.
pub open spec fn base_name(tool: Seq<char>) -> Seq<char> {
    if tool == "video_add_audio"@ {
        "addaudio"@
    } else if tool == "image_compressor"@ {
        "compress"@
    } else {
        tool.filter(|c: char| c != '_')
    }
}

/// The base name of the script that implements `tool`.
pub fn script_base_name(tool: &str) -> (name: String)
    ensures
        name@ == base_name(tool@),
{
    if same_text(tool, "video_add_audio") {
        return "addaudio".to_owned();
    }
    if same_text(tool, "image_compressor") {
        return "compress".to_owned();
    }
    let ghost keep: spec_fn(char) -> bool = |c: char| c != '_';
    let count: usize = tool.unicode_len();
    let mut name = String::new();
    let mut i: usize = 0;
    assert(tool@.take(0).filter(keep) =~= Seq::<char>::empty()) by {
        reveal(Seq::filter);
    }
    while i < count
        invariant
            count == tool@.len(),
            i <= count,
            keep == (|c: char| c != '_'),
            name@ == tool@.take(i as int).filter(keep),
        decreases count - i,
    {
        let c: char = tool.get_char(i);
        proof {
            tool@.lemma_take_succ_push(i as int);
            tool@.take(i as int).lemma_filter_push(c, keep);
        }
        if c != '_' {
            let piece: &str = tool.substring_char(i, i + 1);
            assert(piece@ =~= seq![c]);
            name.append(piece);
            assert(name@ =~= tool@.take(i as int).filter(keep).push(c));
        }
        i = i + 1;
    }
    assert(tool@.take(count as int) =~= tool@);
    name
}

/// One script carried by the bridge: the tool it implements, the script's
/// base name, and its full source text.
pub struct EmbeddedScript {
    pub tool: String,
    pub name: String,
    pub source: String,
}

pub struct EmbeddedScriptView {
    pub tool: Seq<char>,
    pub name: Seq<char>,
    pub source: Seq<char>,
}

impl View for EmbeddedScript {
    type V = EmbeddedScriptView;

    open spec fn view(&self) -> EmbeddedScriptView {
        EmbeddedScriptView { tool: self.tool@, name: self.name@, source: self.source@ }
    }
}

/// The scripts carried by the bridge, in the order they were added.
pub struct EmbeddedScriptTable {
    entries: Vec<EmbeddedScript>,
}

impl View for EmbeddedScriptTable {
    type V = Seq<EmbeddedScriptView>;

    closed spec fn view(&self) -> Seq<EmbeddedScriptView> {
        self.entries@.map_values(|e: EmbeddedScript| e@)
    }
}

/// The source carried for `(tool, name)`: that of the first entry under that
/// pair, if there is one.
pub open spec fn embedded_source(
    table: Seq<EmbeddedScriptView>,
    tool: Seq<char>,
    name: Seq<char>,
) -> Option<Seq<char>>
    decreases table.len(),
{
    if table.len() == 0 {
        None
    } else if table[0].tool == tool && table[0].name == name {
        Some(table[0].source)
    } else {
        embedded_source(table.drop_first(), tool, name)
    }
}

/// A source is carried for a pair exactly when some entry stands under it,
/// and it is then the source of the first such entry.
pub proof fn lemma_embedded_source(
    table: Seq<EmbeddedScriptView>,
    tool: Seq<char>,
    name: Seq<char>,
)
    ensures
        embedded_source(table, tool, name) is None <==> forall|i: int|
            0 <= i < table.len() ==> !(#[trigger] table[i].tool == tool && table[i].name == name),
        embedded_source(table, tool, name) matches Some(source) ==> exists|i: int|
            0 <= i < table.len() && (#[trigger] table[i]).tool == tool && table[i].name == name
                && table[i].source == source && forall|j: int|
                0 <= j < i ==> !(#[trigger] table[j].tool == tool && table[j].name == name),
    decreases table.len(),
{
    if table.len() == 0 {
    } else if table[0].tool == tool && table[0].name == name {
        assert(table[0].source == embedded_source(table, tool, name)->Some_0);
    } else {
        let rest = table.drop_first();
        lemma_embedded_source(rest, tool, name);
        assert forall|i: int| 0 <= i < rest.len() implies rest[i] == table[i + 1] by {}
        if embedded_source(rest, tool, name) is None {
            assert forall|i: int| 0 <= i < table.len() implies !(#[trigger] table[i].tool == tool
                && table[i].name == name) by {
                if i > 0 {
                    assert(rest[i - 1] == table[i]);
                }
            }
        } else {
            let source = embedded_source(rest, tool, name)->Some_0;
            let k = choose|i: int|
                0 <= i < rest.len() && (#[trigger] rest[i]).tool == tool && rest[i].name == name
                    && rest[i].source == source && forall|j: int|
                    0 <= j < i ==> !(#[trigger] rest[j].tool == tool && rest[j].name == name);
            assert(table[k + 1] == rest[k]);
            assert forall|j: int| 0 <= j < k + 1 implies !(#[trigger] table[j].tool == tool
                && table[j].name == name) by {
                if j > 0 {
                    assert(rest[j - 1] == table[j]);
                }
            }
        }
    }
}

impl EmbeddedScriptTable {
    /// A table that carries nothing.
    pub fn new() -> (table: EmbeddedScriptTable)
        ensures
            table@ == Seq::<EmbeddedScriptView>::empty(),
    {
        let table = EmbeddedScriptTable { entries: Vec::new() };
        assert(table@ =~= Seq::<EmbeddedScriptView>::empty());
        table
    }

    /// Adds a script at the end of the table. An entry already standing under
    /// the same pair keeps precedence.
    pub fn add(&mut self, tool: &str, name: &str, source: &str)
        ensures
            final(self)@ == old(self)@.push(
                EmbeddedScriptView { tool: tool@, name: name@, source: source@ },
            ),
    {
        let entry = EmbeddedScript {
            tool: tool.to_owned(),
            name: name.to_owned(),
            source: source.to_owned(),
        };
        self.entries.push(entry);
        assert(self@ =~= old(self)@.push(
            EmbeddedScriptView { tool: tool@, name: name@, source: source@ },
        ));
    }
}

/// The source carried for `tool` under `script_name`, if any.
pub fn get_embedded_script<'a>(
    table: &'a EmbeddedScriptTable,
    tool: &str,
    script_name: &str,
) -> (found: Option<&'a str>)
    ensures
        match found {
            Some(source) => embedded_source(table@, tool@, script_name@) == Some(source@),
            None => embedded_source(table@, tool@, script_name@) is None,
        },
{
    let count: usize = table.entries.len();
    let mut i: usize = 0;
    assert(table@.skip(0) =~= table@);
    while i < count
        invariant
            count == table.entries.len(),
            count == table@.len(),
            i <= count,
            embedded_source(table@, tool@, script_name@) == embedded_source(
                table@.skip(i as int),
                tool@,
                script_name@,
            ),
        decreases count - i,
    {
        let entry: &'a EmbeddedScript = &table.entries[i];
        assert(table@.skip(i as int)[0] == entry@);
        if same_text(entry.tool.as_str(), tool) && same_text(entry.name.as_str(), script_name) {
            return Some(entry.source.as_str());
        }
        assert(table@.skip(i as int).drop_first() =~= table@.skip(i + 1));
        i = i + 1;
    }
    None
}

} // verus!
