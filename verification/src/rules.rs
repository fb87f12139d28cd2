//! The rule file: which tags the points of each category carry.
//!
//! The file is in INI form. A section is named after a category slug, and
//! each `key = value` line in it is one tag for the points of that
//! category.

use vstd::prelude::*;
use vstd::string::*;

verus! {

/// One line of a section.
#[derive(Debug, PartialEq, Eq)]
pub struct Rule {
    pub key: String,
    /// The text after the delimiter; `None` for a line without one.
    pub value: Option<String>,
}

/// One section of the rule file, with its lines in file order.
#[derive(Debug, PartialEq, Eq)]
pub struct Section {
    pub name: String,
    pub rules: Vec<Rule>,
}

/// One tag of an exported point.
#[derive(Debug, PartialEq, Eq)]
pub struct Tag {
    pub key: String,
    pub value: String,
}

/// Why a rule file, or a category looked up in it, yields no tags.
#[derive(Debug, PartialEq, Eq)]
pub enum RuleError {
    /// The text is not a rule file; `message` says where it went wrong.
    Unreadable { message: String },
    /// No section is named after the category.
    MissingRule { category: String },
    /// The category's section has a key without a value.
    MissingValue { category: String, key: String },
}

/// A line as a mathematical value.
pub struct RuleView {
    pub key: Seq<char>,
    pub value: Option<Seq<char>>,
}

/// A section as a mathematical value.
pub struct SectionView {
    pub name: Seq<char>,
    pub rules: Seq<RuleView>,
}

/// A tag as a mathematical value.
pub struct TagView {
    pub key: Seq<char>,
    pub value: Seq<char>,
}

/// An error as a mathematical value.
pub enum RuleErrorView {
    Unreadable { message: Seq<char> },
    MissingRule { category: Seq<char> },
    MissingValue { category: Seq<char>, key: Seq<char> },
}

impl View for Rule {
    type V = RuleView;

    open spec fn view(&self) -> RuleView {
        RuleView {
            key: self.key@,
            value: match self.value {
                Some(value) => Some(value@),
                None => None,
            },
        }
    }
}

/// The values of a list of lines.
pub open spec fn rule_views(rules: Seq<Rule>) -> Seq<RuleView> {
    Seq::new(rules.len(), |i: int| rules[i]@)
}

impl View for Section {
    type V = SectionView;

    open spec fn view(&self) -> SectionView {
        SectionView { name: self.name@, rules: rule_views(self.rules@) }
    }
}

/// The values of a list of sections.
pub open spec fn section_views(sections: Seq<Section>) -> Seq<SectionView> {
    Seq::new(sections.len(), |i: int| sections[i]@)
}

impl View for Tag {
    type V = TagView;

    open spec fn view(&self) -> TagView {
        TagView { key: self.key@, value: self.value@ }
    }
}

/// The values of a list of tags.
pub open spec fn tag_views(tags: Seq<Tag>) -> Seq<TagView> {
    Seq::new(tags.len(), |i: int| tags[i]@)
}

impl View for RuleError {
    type V = RuleErrorView;

    open spec fn view(&self) -> RuleErrorView {
        match *self {
            RuleError::Unreadable { message } => RuleErrorView::Unreadable { message: message@ },
            RuleError::MissingRule { category } => RuleErrorView::MissingRule {
                category: category@,
            },
            RuleError::MissingValue { category, key } => RuleErrorView::MissingValue {
                category: category@,
                key: key@,
            },
        }
    }
}

/// The sections that the INI reader finds in `text`, in file order, or its
/// complaint about `text`.
pub uninterp spec fn ini_sections(text: Seq<char>) -> Result<Seq<SectionView>, Seq<char>>;

/// What the INI reader handed back, as a mathematical value.
pub open spec fn parsed_view(parsed: Result<Vec<Section>, String>) -> Result<
    Seq<SectionView>,
    Seq<char>,
> {
    match parsed {
        Ok(sections) => Ok(section_views(sections@)),
        Err(message) => Err(message@),
    }
}

/// `configparser::ini::Ini::read`, on a reader fresh from `Ini::new` whose
/// comment symbols were cleared with `set_comment_symbols(&[])`.
///
/// Not proved here: that what the reader returns depends on `text` alone,
/// and that walking its maps yields sections and keys in the order in which
/// the file first names them (the maps are insertion-ordered).
#[verifier::external_body]
fn read_ini(text: &str) -> (parsed: Result<Vec<Section>, String>)
    ensures
        parsed_view(parsed) == ini_sections(text@),
{
    let mut reader = configparser::ini::Ini::new();
    reader.set_comment_symbols(&[]);
    reader.read(text.to_string()).map(
        |sections|
            sections.into_iter().map(
                |(name, rules)|
                    Section {
                        name,
                        rules: rules.into_iter().map(|(key, value)| Rule { key, value }).collect(),
                    },
            ).collect(),
    )
}

/// The first section named `name`.
pub open spec fn section_named(sections: Seq<SectionView>, name: Seq<char>) -> Option<
    SectionView,
>
    decreases sections.len(),
{
    if sections.len() == 0 {
        None
    } else if sections[0].name == name {
        Some(sections[0])
    } else {
        section_named(sections.drop_first(), name)
    }
}

/// The tags that the lines of a section stand for, in order. The first line
/// without a value makes the whole section unusable.
pub open spec fn tags_of(category: Seq<char>, rules: Seq<RuleView>) -> Result<
    Seq<TagView>,
    RuleErrorView,
>
    decreases rules.len(),
{
    if rules.len() == 0 {
        Ok(Seq::empty())
    } else {
        match tags_of(category, rules.drop_last()) {
            Err(error) => Err(error),
            Ok(tags) => match rules.last().value {
                Some(value) => Ok(tags.push(TagView { key: rules.last().key, value })),
                None => Err(RuleErrorView::MissingValue { category, key: rules.last().key }),
            },
        }
    }
}

/// The tags for the points of `category`.
pub open spec fn resolved(sections: Seq<SectionView>, category: Seq<char>) -> Result<
    Seq<TagView>,
    RuleErrorView,
> {
    match section_named(sections, category) {
        Some(section) => tags_of(category, section.rules),
        None => Err(RuleErrorView::MissingRule { category }),
    }
}

/// A tag lookup's result as a mathematical value.
pub open spec fn lookup_view(found: Result<Vec<Tag>, RuleError>) -> Result<
    Seq<TagView>,
    RuleErrorView,
> {
    match found {
        Ok(tags) => Ok(tag_views(tags@)),
        Err(error) => Err(error@),
    }
}

/// The rules of an export: sections in file order.
#[derive(Debug, PartialEq, Eq)]
pub struct RuleSet {
    pub sections: Vec<Section>,
}

impl View for RuleSet {
    type V = Seq<SectionView>;

    open spec fn view(&self) -> Seq<SectionView> {
        section_views(self.sections@)
    }
}

/// Turns the lines of a section into tags.
fn tags_from(category: &str, rules: &Vec<Rule>) -> (found: Result<Vec<Tag>, RuleError>)
    ensures
        lookup_view(found) == tags_of(category@, rule_views(rules@)),
{
    let ghost lines = rule_views(rules@);
    let mut tags: Vec<Tag> = Vec::new();
    let mut i: usize = 0;
    assert(lines.take(0) =~= Seq::empty());
    assert(tag_views(tags@) =~= Seq::empty());
    while i < rules.len()
        invariant
            i <= rules.len(),
            lines == rule_views(rules@),
            tags_of(category@, lines.take(i as int)) == Ok::<Seq<TagView>, RuleErrorView>(
                tag_views(tags@),
            ),
        decreases rules.len() - i,
    {
        assert(lines.take(i + 1).drop_last() =~= lines.take(i as int));
        assert(lines.take(i + 1).last() == rules@[i as int]@);
        match &rules[i].value {
            Some(value) => {
                let ghost before = tags@;
                let tag = Tag { key: rules[i].key.clone(), value: value.clone() };
                tags.push(tag);
                assert(tag_views(tags@) =~= tag_views(before).push(tag@));
            },
            None => {
                proof {
                    lemma_missing_value_stays(category@, lines, (i + 1) as nat);
                }
                return Err(
                    RuleError::MissingValue {
                        category: String::from_str(category),
                        key: rules[i].key.clone(),
                    },
                );
            },
        }
        i = i + 1;
    }
    assert(lines.take(i as int) =~= lines);
    Ok(tags)
}

/// Once a line without a value has been met, further lines change nothing.
proof fn lemma_missing_value_stays(category: Seq<char>, rules: Seq<RuleView>, at: nat)
    requires
        at <= rules.len(),
        tags_of(category, rules.take(at as int)) is Err,
    ensures
        tags_of(category, rules) == tags_of(category, rules.take(at as int)),
    decreases rules.len(),
{
    if at < rules.len() {
        assert(rules.drop_last().take(at as int) =~= rules.take(at as int));
        lemma_missing_value_stays(category, rules.drop_last(), at);
    } else {
        assert(rules.take(at as int) =~= rules);
    }
}

impl RuleSet {
    /// Reads a rule file.
    pub fn parse(text: &str) -> (rules: Result<RuleSet, RuleError>)
        ensures
            match ini_sections(text@) {
                Ok(sections) => rules matches Ok(set) && set@ == sections,
                Err(message) => rules matches Err(error) && error@ == (RuleErrorView::Unreadable {
                    message,
                }),
            },
    {
        RuleSet::from_parsed(read_ini(text))
    }

    /// Wraps what the INI reader handed back.
    pub fn from_parsed(parsed: Result<Vec<Section>, String>) -> (rules: Result<RuleSet, RuleError>)
        ensures
            match parsed {
                Ok(sections) => rules matches Ok(set) && set@ == section_views(sections@),
                Err(message) => rules matches Err(error) && error@ == (RuleErrorView::Unreadable {
                    message: message@,
                }),
            },
    {
        match parsed {
            Ok(sections) => Ok(RuleSet { sections }),
            Err(message) => Err(RuleError::Unreadable { message }),
        }
    }

    /// Looks up the tags for the points of `category`: the lines of the
    /// first section of that name, in file order.
    pub fn tags_for(&self, category: &str) -> (found: Result<Vec<Tag>, RuleError>)
        ensures
            lookup_view(found) == resolved(self@, category@),
    {
        let ghost sections = self@;
        let wanted = String::from_str(category);
        let mut i: usize = 0;
        assert(sections.skip(0) =~= sections);
        while i < self.sections.len()
            invariant
                i <= self.sections.len(),
                sections == self@,
                wanted@ == category@,
                section_named(sections, category@) == section_named(
                    sections.skip(i as int),
                    category@,
                ),
            decreases self.sections.len() - i,
        {
            assert(sections.skip(i as int)[0] == self.sections@[i as int]@);
            if self.sections[i].name == wanted {
                return tags_from(category, &self.sections[i].rules);
            }
            assert(sections.skip(i as int).drop_first() =~= sections.skip(i + 1));
            i = i + 1;
        }
        Err(RuleError::MissingRule { category: String::from_str(category) })
    }
}

} // verus!
