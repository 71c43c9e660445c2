//! A configured connection: the settings that the service keeps for a
//! network the user has set up.

use crate::text::is_text;
use vstd::prelude::*;

verus! {

/// One setting of a configured connection whose value is text.
#[derive(Debug, Clone, PartialEq, Eq)]
pub struct Setting {
    pub key: String,
    pub value: String,
}

pub struct SettingView {
    pub key: Seq<char>,
    pub value: Seq<char>,
}

impl View for Setting {
    type V = SettingView;

    open spec fn view(&self) -> SettingView {
        SettingView { key: self.key@, value: self.value@ }
    }
}

impl DeepView for Setting {
    type V = SettingView;

    open spec fn deep_view(&self) -> SettingView {
        self@
    }
}

/// A named group of settings.
#[derive(Debug, Clone, PartialEq, Eq)]
pub struct Section {
    pub name: String,
    pub settings: Vec<Setting>,
}

pub struct SectionView {
    pub name: Seq<char>,
    pub settings: Seq<SettingView>,
}

impl View for Section {
    type V = SectionView;

    open spec fn view(&self) -> SectionView {
        SectionView { name: self.name@, settings: self.settings.deep_view() }
    }
}

impl DeepView for Section {
    type V = SectionView;

    open spec fn deep_view(&self) -> SectionView {
        self@
    }
}

/// The value of the first setting with the key.
pub open spec fn spec_value_of(settings: Seq<SettingView>, key: Seq<char>) -> Option<Seq<char>>
    decreases settings.len(),
{
    if settings.len() == 0 {
        None
    } else if settings[0].key == key {
        Some(settings[0].value)
    } else {
        spec_value_of(settings.drop_first(), key)
    }
}

/// The first section with the name.
pub open spec fn spec_section_of(sections: Seq<SectionView>, name: Seq<char>) -> Option<SectionView>
    decreases sections.len(),
{
    if sections.len() == 0 {
        None
    } else if sections[0].name == name {
        Some(sections[0])
    } else {
        spec_section_of(sections.drop_first(), name)
    }
}

/// The display name in the settings: the `id` of the `connection` section.
pub open spec fn spec_id_of(sections: Seq<SectionView>) -> Option<Seq<char>> {
    match spec_section_of(sections, "connection"@) {
        Some(section) => spec_value_of(section.settings, "id"@),
        None => None,
    }
}

fn value_of<'a>(settings: &'a Vec<Setting>, key: &str) -> (r: Option<&'a String>)
    ensures
        r.deep_view() == spec_value_of(settings.deep_view(), key@),
{
    let mut i: usize = 0;
    assert(settings.deep_view().skip(0) =~= settings.deep_view());
    while i < settings.len()
        invariant
            i <= settings.len(),
            spec_value_of(settings.deep_view(), key@) == spec_value_of(
                settings.deep_view().skip(i as int),
                key@,
            ),
        decreases settings.len() - i,
    {
        let ghost here = settings.deep_view().skip(i as int);
        assert(here[0] == settings[i as int]@);
        assert(here.drop_first() =~= settings.deep_view().skip(i + 1));
        if is_text(&settings[i].key, key) {
            return Some(&settings[i].value);
        }
        i += 1;
    }
    assert(settings.deep_view().skip(i as int).len() == 0);
    None
}

fn section_of<'a>(sections: &'a Vec<Section>, name: &str) -> (r: Option<&'a Section>)
    ensures
        r.deep_view() == spec_section_of(sections.deep_view(), name@),
{
    let mut i: usize = 0;
    assert(sections.deep_view().skip(0) =~= sections.deep_view());
    while i < sections.len()
        invariant
            i <= sections.len(),
            spec_section_of(sections.deep_view(), name@) == spec_section_of(
                sections.deep_view().skip(i as int),
                name@,
            ),
        decreases sections.len() - i,
    {
        let ghost here = sections.deep_view().skip(i as int);
        assert(here[0] == sections[i as int]@);
        assert(here.drop_first() =~= sections.deep_view().skip(i + 1));
        if is_text(&sections[i].name, name) {
            return Some(&sections[i]);
        }
        i += 1;
    }
    assert(sections.deep_view().skip(i as int).len() == 0);
    None
}

/// A configured connection.
#[derive(Debug, Clone, PartialEq, Eq)]
pub struct ConnectionSetting {
    path: String,
    settings: Vec<Section>,
}

pub struct ConnectionSettingView {
    pub path: Seq<char>,
    pub settings: Seq<SectionView>,
}

impl ConnectionSettingView {
    /// The display name of the connection, if its settings hold one.
    pub open spec fn id(self) -> Option<Seq<char>> {
        spec_id_of(self.settings)
    }
}

impl View for ConnectionSetting {
    type V = ConnectionSettingView;

    closed spec fn view(&self) -> ConnectionSettingView {
        ConnectionSettingView { path: self.path@, settings: self.settings.deep_view() }
    }
}

impl DeepView for ConnectionSetting {
    type V = ConnectionSettingView;

    open spec fn deep_view(&self) -> ConnectionSettingView {
        self@
    }
}

impl ConnectionSetting {
    /// A configured connection from where it lives and the settings that
    /// the service reports of it.
    pub fn new(path: String, settings: Vec<Section>) -> (r: ConnectionSetting)
        ensures
            r@ == (ConnectionSettingView { path: path@, settings: settings.deep_view() }),
    {
        ConnectionSetting { path, settings }
    }

    /// The display name of the connection: the `id` of the `connection`
    /// section. `None` when the settings have no such section, or the
    /// section no such entry.
    pub fn id(&self) -> (r: Option<String>)
        ensures
            r.deep_view() == self@.id(),
    {
        match section_of(&self.settings, "connection") {
            Some(section) => match value_of(&section.settings, "id") {
                Some(id) => Some(id.clone()),
                None => None,
            },
            None => None,
        }
    }

    pub fn path(&self) -> (r: String)
        ensures
            r@ == self@.path,
    {
        self.path.clone()
    }
}

} // verus!
