//! The text of a `.gitignore` file, written from a list of configurations.

use vstd::prelude::*;
use vstd::string::StringExecFns;

verus! {

/// A part of a configuration that can be switched on and off.
#[derive(Debug, PartialEq, Eq)]
pub struct SubSection {
    /// Whether the part is switched on.
    pub enabled: bool,
    /// What is ignored while the part is switched on.
    pub files: Option<Vec<String>>,
    /// What is ignored while the part is switched off.
    pub files_disabled: Option<Vec<String>>,
}

/// What is ignored for one tool or one kind of file.
#[derive(Debug, PartialEq, Eq)]
pub struct GitignoreConfig {
    /// The tool or the kind of file.
    pub name: String,
    /// One line about it.
    pub description: String,
    /// Whether the configuration is used at all.
    pub enabled: bool,
    /// What is always ignored.
    pub ignore: Option<Vec<String>>,
    /// The parts that can be switched on and off, each with its name, in the
    /// order in which they are written.
    pub sections: Option<Vec<(String, SubSection)>>,
}

/// The entries `entries`, each on a line of its own.
pub open spec fn entries_text(entries: Seq<String>) -> Seq<char>
    decreases entries.len(),
{
    if entries.len() == 0 {
        Seq::empty()
    } else {
        entries_text(entries.drop_last()) + entries.last()@ + "\n"@
    }
}

/// The entries of `list`, if there is one, each on a line of its own.
pub open spec fn list_text(list: Option<Vec<String>>) -> Seq<char> {
    match list {
        Some(entries) => entries_text(entries@),
        None => Seq::empty(),
    }
}

/// The lines that the part `section` with the name `name` adds: its heading
/// and its entries. A part that is switched off and names nothing for that
/// case adds no line.
pub open spec fn section_text(name: Seq<char>, section: SubSection) -> Seq<char> {
    if section.enabled {
        "# section: "@ + name + "\n"@ + list_text(section.files)
    } else if section.files_disabled is Some {
        "# section: "@ + name + "\n"@ + list_text(section.files_disabled)
    } else {
        Seq::empty()
    }
}

/// The lines of the parts `sections`, in order.
pub open spec fn sections_text(sections: Seq<(String, SubSection)>) -> Seq<char>
    decreases sections.len(),
{
    if sections.len() == 0 {
        Seq::empty()
    } else {
        sections_text(sections.drop_last()) + section_text(
            sections.last().0@,
            sections.last().1,
        )
    }
}

/// The lines of the configuration `config`: nothing if it is not used, else
/// its heading, its description, what it always ignores, its parts, and an
/// empty line.
pub open spec fn config_text(config: GitignoreConfig) -> Seq<char> {
    if config.enabled {
        "### "@ + config.name@ + " ###\n"@ + "# "@ + config.description@ + "\n"@ + list_text(
            config.ignore,
        ) + (match config.sections {
            Some(sections) => sections_text(sections@),
            None => Seq::empty(),
        }) + "\n"@
    } else {
        Seq::empty()
    }
}

/// The lines of the configurations `configs`, in order.
pub open spec fn configs_text(configs: Seq<GitignoreConfig>) -> Seq<char>
    decreases configs.len(),
{
    if configs.len() == 0 {
        Seq::empty()
    } else {
        configs_text(configs.drop_last()) + config_text(configs.last())
    }
}

/// The whole file: a first line that says when it was generated, then the
/// configurations.
pub open spec fn gitignore_text(timestamp: Seq<char>, configs: Seq<GitignoreConfig>) -> Seq<char> {
    "# generated on "@ + timestamp + "\n"@ + configs_text(configs)
}

/// Appends the entries `entries`, each on a line of its own.
fn write_entries(out: &mut String, entries: &Vec<String>)
    ensures
        final(out)@ == old(out)@ + entries_text(entries@),
{
    let mut i: usize = 0;
    assert(entries@.take(0) =~= Seq::<String>::empty());
    assert(out@ =~= old(out)@ + entries_text(entries@.take(0)));
    while i < entries.len()
        invariant
            i <= entries.len(),
            out@ == old(out)@ + entries_text(entries@.take(i as int)),
        decreases entries.len() - i,
    {
        let ghost before = out@;
        out.append(entries[i].as_str());
        out.append("\n");
        assert(entries@.take(i + 1).drop_last() =~= entries@.take(i as int));
        assert(out@ =~= old(out)@ + entries_text(entries@.take(i + 1)));
        i = i + 1;
    }
    assert(entries@.take(entries.len() as int) =~= entries@);
}

/// Appends the entries of `list`, if there is one.
fn write_list(out: &mut String, list: &Option<Vec<String>>)
    ensures
        final(out)@ == old(out)@ + list_text(*list),
{
    match list {
        Some(entries) => write_entries(out, entries),
        None => {
            assert(out@ =~= old(out)@ + list_text(*list));
        },
    }
}

/// Appends the lines of the part `section` with the name `name`.
fn write_section(out: &mut String, name: &str, section: &SubSection)
    ensures
        final(out)@ == old(out)@ + section_text(name@, *section),
{
    if section.enabled {
        out.append("# section: ");
        out.append(name);
        out.append("\n");
        write_list(out, &section.files);
    } else if section.files_disabled.is_some() {
        out.append("# section: ");
        out.append(name);
        out.append("\n");
        write_list(out, &section.files_disabled);
    }
    assert(out@ =~= old(out)@ + section_text(name@, *section));
}

/// Appends the lines of the configuration `config`.
fn write_config(out: &mut String, config: &GitignoreConfig)
    ensures
        final(out)@ == old(out)@ + config_text(*config),
{
    if config.enabled {
        out.append("### ");
        out.append(config.name.as_str());
        out.append(" ###\n");
        out.append("# ");
        out.append(config.description.as_str());
        out.append("\n");
        write_list(out, &config.ignore);
        let ghost head = out@;
        match &config.sections {
            Some(sections) => {
                let mut i: usize = 0;
                assert(sections@.take(0) =~= Seq::<(String, SubSection)>::empty());
                assert(out@ =~= head + sections_text(sections@.take(0)));
                while i < sections.len()
                    invariant
                        i <= sections.len(),
                        out@ == head + sections_text(sections@.take(i as int)),
                    decreases sections.len() - i,
                {
                    write_section(out, sections[i].0.as_str(), &sections[i].1);
                    assert(sections@.take(i + 1).drop_last() =~= sections@.take(i as int));
                    assert(out@ =~= head + sections_text(sections@.take(i + 1)));
                    i = i + 1;
                }
                assert(sections@.take(sections.len() as int) =~= sections@);
            },
            None => {},
        }
        out.append("\n");
    }
    assert(out@ =~= old(out)@ + config_text(*config));
}

/// The content of the `.gitignore` file, or nothing where the file is to be
/// left alone: where the file is `present` it is written again only if
/// `is_force` says so.
pub fn generate_gitignore(
    present: bool,
    is_force: bool,
    timestamp: &str,
    configs: &Vec<GitignoreConfig>,
) -> (content: Option<String>)
    ensures
        match content {
            Some(text) => (!present || is_force) && text@ == gitignore_text(timestamp@, configs@),
            None => present && !is_force,
        },
{
    if present && !is_force {
        return None;
    }
    let mut out = String::from_str("# generated on ");
    out.append(timestamp);
    out.append("\n");
    let ghost head = out@;
    let mut i: usize = 0;
    assert(configs@.take(0) =~= Seq::<GitignoreConfig>::empty());
    assert(out@ =~= head + configs_text(configs@.take(0)));
    while i < configs.len()
        invariant
            i <= configs.len(),
            !present || is_force,
            head == "# generated on "@ + timestamp@ + "\n"@,
            out@ == head + configs_text(configs@.take(i as int)),
        decreases configs.len() - i,
    {
        write_config(&mut out, &configs[i]);
        assert(configs@.take(i + 1).drop_last() =~= configs@.take(i as int));
        assert(out@ =~= head + configs_text(configs@.take(i + 1)));
        i = i + 1;
    }
    assert(configs@.take(configs.len() as int) =~= configs@);
    assert(out@ =~= gitignore_text(timestamp@, configs@));
    Some(out)
}

} // verus!
