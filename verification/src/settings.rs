//! Settings of the effect.

pub mod standard;

use vstd::prelude::*;

verus! {

/// A decimal number with six places, held as a whole number of millionths.
///
/// Every number that a setting holds, its range or its default, is written
/// with at most six decimal places, so all of them are exact in this form.
#[derive(Debug, Clone, Copy, PartialEq, Eq, Structural)]
pub struct Decimal {
    pub millionths: i64,
}

/// A block of settings that can be switched off without losing its values.
#[derive(Debug, Clone, PartialEq, Eq)]
pub struct SettingsBlock<T> {
    pub enabled: bool,
    pub settings: T,
}

impl<T> SettingsBlock<T> {
    /// The block for settings that may be absent: enabled with the settings
    /// that are there, or disabled with `fallback` in their place.
    pub open spec fn of(settings: Option<T>, fallback: T) -> Self {
        match settings {
            Some(settings) => SettingsBlock { enabled: true, settings },
            None => SettingsBlock { enabled: false, settings: fallback },
        }
    }

    /// The settings of the block if it is enabled.
    pub open spec fn enabled_settings(self) -> Option<T> {
        if self.enabled {
            Some(self.settings)
        } else {
            None
        }
    }
}

/// One choice of an enumerated setting.
#[derive(Debug, Clone, Copy, PartialEq, Eq)]
pub struct MenuItem {
    pub label: &'static str,
    pub description: Option<&'static str>,
    /// The index of the variant that this choice stands for.
    pub index: u32,
}

/// What kind of control a setting is edited with, and what it starts with.
#[allow(inconsistent_fields)]
#[derive(Debug, PartialEq, Eq)]
pub enum SettingKind {
    /// One of several choices.
    Enumeration { options: Vec<MenuItem>, default_value: u32 },
    /// A number from 0 to 1, shown in percent.
    Percentage { logarithmic: bool, default_value: Decimal },
    /// A whole number from `min` to `max`.
    IntRange { min: i32, max: i32, default_value: i32 },
    /// A number from `min` to `max`.
    FloatRange { min: Decimal, max: Decimal, logarithmic: bool, default_value: Decimal },
    /// On or off.
    Boolean { default_value: bool },
    /// A block of settings that is switched on or off as a whole.
    Group { children: Vec<SettingDescriptor>, default_value: bool },
}

/// Describes one setting: how it is called, how it is edited, and which
/// setting it is.
#[derive(Debug, PartialEq, Eq)]
pub struct SettingDescriptor {
    pub label: &'static str,
    pub description: Option<&'static str>,
    pub kind: SettingKind,
    /// One of the constants of [`standard::setting_id`].
    pub id: u32,
}

/// The settings of an effect, in the order in which they are shown.
#[derive(Debug, PartialEq, Eq)]
pub struct SettingsList {
    pub settings: Vec<SettingDescriptor>,
}

/// A [`SettingKind`] as a plain mathematical value.
#[allow(inconsistent_fields)]
pub enum KindModel {
    Enumeration { options: Seq<MenuItem>, default_value: u32 },
    Percentage { logarithmic: bool, default_value: Decimal },
    IntRange { min: i32, max: i32, default_value: i32 },
    FloatRange { min: Decimal, max: Decimal, logarithmic: bool, default_value: Decimal },
    Boolean { default_value: bool },
    Group { children: Seq<DescriptorModel>, default_value: bool },
}

/// A [`SettingDescriptor`] as a plain mathematical value.
pub struct DescriptorModel {
    pub label: &'static str,
    pub description: Option<&'static str>,
    pub kind: KindModel,
    pub id: u32,
}

/// The models of a row of descriptors.
pub open spec fn models_of(descriptors: Seq<SettingDescriptor>) -> Seq<DescriptorModel> {
    Seq::new(descriptors.len(), |i: int| descriptors[i].model())
}

impl SettingDescriptor {
    /// What the descriptor says, children included.
    pub open spec fn model(self) -> DescriptorModel
        decreases self,
    {
        DescriptorModel {
            label: self.label,
            description: self.description,
            id: self.id,
            kind: match self.kind {
                SettingKind::Enumeration { options, default_value } => KindModel::Enumeration {
                    options: options@,
                    default_value,
                },
                SettingKind::Percentage { logarithmic, default_value } => KindModel::Percentage {
                    logarithmic,
                    default_value,
                },
                SettingKind::IntRange { min, max, default_value } => KindModel::IntRange {
                    min,
                    max,
                    default_value,
                },
                SettingKind::FloatRange {
                    min,
                    max,
                    logarithmic,
                    default_value,
                } => KindModel::FloatRange { min, max, logarithmic, default_value },
                SettingKind::Boolean { default_value } => KindModel::Boolean { default_value },
                SettingKind::Group { children, default_value } => KindModel::Group {
                    children: Seq::new(
                        children.len() as nat,
                        |i: int|
                            if 0 <= i < children.len() {
                                children[i].model()
                            } else {
                                arbitrary()
                            },
                    ),
                    default_value,
                },
            },
        }
    }

    /// The children of a group, as models, are the models of its children.
    pub proof fn lemma_group_model(self)
        requires
            self.kind is Group,
        ensures
            self.model().kind is Group,
            self.model().kind->Group_children == models_of(self.kind->Group_children@),
            self.model().kind->Group_default_value == self.kind->Group_default_value,
    {
        assert(self.model().kind->Group_children =~= models_of(self.kind->Group_children@));
    }
}

impl SettingsList {
    /// What the list says.
    pub open spec fn model(self) -> Seq<DescriptorModel> {
        models_of(self.settings@)
    }
}

impl DescriptorModel {
    /// The setting can be shown and edited as described: an enumeration
    /// starts with one of its choices, and no two choices stand for the same
    /// variant; a number starts within its range; and the same holds of every
    /// setting in a group.
    pub open spec fn valid(self) -> bool
        decreases self,
    {
        match self.kind {
            KindModel::Enumeration { options, default_value } => {
                &&& exists|i: int| 0 <= i < options.len() && (#[trigger] options[i]).index == default_value
                &&& forall|i: int, j: int|
                    0 <= i < j < options.len() ==> (#[trigger] options[i]).index != (
                    #[trigger] options[j]).index
            },
            KindModel::Percentage { default_value, .. } => 0 <= default_value.millionths <= 1_000_000,
            KindModel::IntRange { min, max, default_value } => min <= default_value <= max,
            KindModel::FloatRange { min, max, default_value, .. } => min.millionths
                <= default_value.millionths <= max.millionths,
            KindModel::Boolean { .. } => true,
            KindModel::Group { children, .. } => forall|i: int|
                0 <= i < children.len() ==> (#[trigger] children[i]).valid(),
        }
    }
}

/// The numbers of the settings in `models`, in the order in which they are
/// shown: each group is followed by the settings inside it.
pub open spec fn ids_of(models: Seq<DescriptorModel>) -> Seq<u32>
    decreases models,
{
    if models.len() == 0 {
        Seq::empty()
    } else {
        let inside = match models.first().kind {
            KindModel::Group { children, .. } => ids_of(children),
            _ => Seq::empty(),
        };
        seq![models.first().id] + inside + ids_of(models.drop_first())
    }
}

/// Unfolds [`ids_of`] at place `k` of a row: the numbers from there on are
/// the number of the setting at `k`, those of the settings inside it, and
/// those of the rest of the row.
pub proof fn lemma_ids_step(models: Seq<DescriptorModel>, k: int)
    requires
        0 <= k < models.len(),
    ensures
        ids_of(models.subrange(k, models.len() as int)) == seq![models[k].id] + (match models[k].kind {
            KindModel::Group { children, .. } => ids_of(children),
            _ => Seq::empty(),
        }) + ids_of(models.subrange(k + 1, models.len() as int)),
{
    let tail = models.subrange(k, models.len() as int);
    assert(tail.first() == models[k]);
    assert(tail.drop_first() =~= models.subrange(k + 1, models.len() as int));
}

} // verus!
