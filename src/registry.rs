use vstd::prelude::*;

use crate::settings::RegistryFields;

verus! {

/// An optional value of the uninstall record.
#[derive(Clone, Copy, Debug, PartialEq, Eq, Structural)]
pub enum RegistryField {
    Comments,
    DisplayIcon,
    DisplayName,
    DisplayVersion,
    EstimatedSize,
    InstallLocation,
    NoModify,
    NoRemove,
    NoRepair,
    Publisher,
    UninstallString,
}

/// Whether `fields` selects `f`.
pub open spec fn field_enabled(fields: RegistryFields, f: RegistryField) -> bool {
    match f {
        RegistryField::Comments => fields.create_comments,
        RegistryField::DisplayIcon => fields.create_display_icon,
        RegistryField::DisplayName => fields.create_display_name,
        RegistryField::DisplayVersion => fields.create_display_version,
        RegistryField::EstimatedSize => fields.create_estimated_size,
        RegistryField::InstallLocation => fields.create_install_location,
        RegistryField::NoModify => fields.create_no_modify,
        RegistryField::NoRemove => fields.create_no_remove,
        RegistryField::NoRepair => fields.create_no_repair,
        RegistryField::Publisher => fields.create_publisher,
        RegistryField::UninstallString => fields.create_uninstall_string,
    }
}

/// `fields` with the boolean of `f` set to `b`, the others as they were.
pub open spec fn with_field(fields: RegistryFields, f: RegistryField, b: bool) -> RegistryFields {
    match f {
        RegistryField::Comments => RegistryFields { create_comments: b, ..fields },
        RegistryField::DisplayIcon => RegistryFields { create_display_icon: b, ..fields },
        RegistryField::DisplayName => RegistryFields { create_display_name: b, ..fields },
        RegistryField::DisplayVersion => RegistryFields { create_display_version: b, ..fields },
        RegistryField::EstimatedSize => RegistryFields { create_estimated_size: b, ..fields },
        RegistryField::InstallLocation => RegistryFields { create_install_location: b, ..fields },
        RegistryField::NoModify => RegistryFields { create_no_modify: b, ..fields },
        RegistryField::NoRemove => RegistryFields { create_no_remove: b, ..fields },
        RegistryField::NoRepair => RegistryFields { create_no_repair: b, ..fields },
        RegistryField::Publisher => RegistryFields { create_publisher: b, ..fields },
        RegistryField::UninstallString => RegistryFields { create_uninstall_string: b, ..fields },
    }
}

/// Every field, in the order in which values are written.
pub open spec fn all_fields_spec() -> Seq<RegistryField> {
    seq![
        RegistryField::Comments,
        RegistryField::DisplayIcon,
        RegistryField::DisplayName,
        RegistryField::DisplayVersion,
        RegistryField::EstimatedSize,
        RegistryField::InstallLocation,
        RegistryField::NoModify,
        RegistryField::NoRemove,
        RegistryField::NoRepair,
        RegistryField::Publisher,
        RegistryField::UninstallString,
    ]
}

/// The fields that `fields` selects, in writing order.
pub open spec fn selected_fields_spec(fields: RegistryFields) -> Seq<RegistryField> {
    all_fields_spec().filter(enabled_pred(fields))
}

/// The selection of `fields` as a predicate on fields.
pub open spec fn enabled_pred(fields: RegistryFields) -> spec_fn(RegistryField) -> bool {
    |f: RegistryField| field_enabled(fields, f)
}

/// The name under which a field's value is stored.
pub open spec fn field_name_spec(f: RegistryField) -> Seq<char> {
    match f {
        RegistryField::Comments => "Comments"@,
        RegistryField::DisplayIcon => "DisplayIcon"@,
        RegistryField::DisplayName => "DisplayName"@,
        RegistryField::DisplayVersion => "DisplayVersion"@,
        RegistryField::EstimatedSize => "EstimatedSize"@,
        RegistryField::InstallLocation => "InstallLocation"@,
        RegistryField::NoModify => "NoModify"@,
        RegistryField::NoRemove => "NoRemove"@,
        RegistryField::NoRepair => "NoRepair"@,
        RegistryField::Publisher => "Publisher"@,
        RegistryField::UninstallString => "UninstallString"@,
    }
}

/// Whether a field holds a number (a DWORD) rather than a string.
pub open spec fn field_is_number_spec(f: RegistryField) -> bool {
    match f {
        RegistryField::EstimatedSize | RegistryField::NoModify | RegistryField::NoRemove
        | RegistryField::NoRepair => true,
        _ => false,
    }
}

impl RegistryField {
    /// The name under which the value is stored.
    pub fn value_name(&self) -> (r: &'static str)
        ensures
            r@ == field_name_spec(*self),
    {
        match self {
            RegistryField::Comments => "Comments",
            RegistryField::DisplayIcon => "DisplayIcon",
            RegistryField::DisplayName => "DisplayName",
            RegistryField::DisplayVersion => "DisplayVersion",
            RegistryField::EstimatedSize => "EstimatedSize",
            RegistryField::InstallLocation => "InstallLocation",
            RegistryField::NoModify => "NoModify",
            RegistryField::NoRemove => "NoRemove",
            RegistryField::NoRepair => "NoRepair",
            RegistryField::Publisher => "Publisher",
            RegistryField::UninstallString => "UninstallString",
        }
    }

    /// Whether the value is a number rather than a string.
    pub fn is_number(&self) -> (r: bool)
        ensures
            r == field_is_number_spec(*self),
    {
        match self {
            RegistryField::EstimatedSize | RegistryField::NoModify | RegistryField::NoRemove
            | RegistryField::NoRepair => true,
            _ => false,
        }
    }
}

fn enabled(fields: &RegistryFields, f: RegistryField) -> (r: bool)
    ensures
        r == field_enabled(*fields, f),
{
    match f {
        RegistryField::Comments => fields.create_comments,
        RegistryField::DisplayIcon => fields.create_display_icon,
        RegistryField::DisplayName => fields.create_display_name,
        RegistryField::DisplayVersion => fields.create_display_version,
        RegistryField::EstimatedSize => fields.create_estimated_size,
        RegistryField::InstallLocation => fields.create_install_location,
        RegistryField::NoModify => fields.create_no_modify,
        RegistryField::NoRemove => fields.create_no_remove,
        RegistryField::NoRepair => fields.create_no_repair,
        RegistryField::Publisher => fields.create_publisher,
        RegistryField::UninstallString => fields.create_uninstall_string,
    }
}

/// The fields whose values go into the uninstall record, in writing order.
pub fn selected_fields(fields: &RegistryFields) -> (r: Vec<RegistryField>)
    ensures
        r@ == selected_fields_spec(*fields),
{
    let all = vec![
        RegistryField::Comments,
        RegistryField::DisplayIcon,
        RegistryField::DisplayName,
        RegistryField::DisplayVersion,
        RegistryField::EstimatedSize,
        RegistryField::InstallLocation,
        RegistryField::NoModify,
        RegistryField::NoRemove,
        RegistryField::NoRepair,
        RegistryField::Publisher,
        RegistryField::UninstallString,
    ];
    assert(all@ =~= all_fields_spec());
    let ghost pred = enabled_pred(*fields);
    let mut out: Vec<RegistryField> = Vec::new();
    let mut i: usize = 0;
    while i < all.len()
        invariant
            all@ == all_fields_spec(),
            pred == enabled_pred(*fields),
            i <= all@.len(),
            out@ == all@.take(i as int).filter(pred),
        decreases all@.len() - i,
    {
        let f = all[i];
        assert(all@.take(i + 1) =~= all@.take(i as int).push(f));
        proof {
            all@.take(i as int).lemma_filter_push(f, pred);
        }
        if enabled(fields, f) {
            out.push(f);
        }
        i = i + 1;
    }
    assert(all@.take(i as int) =~= all@);
    out
}

/// A field is in the record exactly when its own boolean is set.
pub proof fn lemma_selected_iff_enabled(fields: RegistryFields, g: RegistryField)
    ensures
        selected_fields_spec(fields).contains(g) <==> field_enabled(fields, g),
{
    let pred = enabled_pred(fields);
    let all = all_fields_spec();
    let i: int = match g {
        RegistryField::Comments => 0,
        RegistryField::DisplayIcon => 1,
        RegistryField::DisplayName => 2,
        RegistryField::DisplayVersion => 3,
        RegistryField::EstimatedSize => 4,
        RegistryField::InstallLocation => 5,
        RegistryField::NoModify => 6,
        RegistryField::NoRemove => 7,
        RegistryField::NoRepair => 8,
        RegistryField::Publisher => 9,
        RegistryField::UninstallString => 10,
    };
    assert(all[i] == g);
    if field_enabled(fields, g) {
        all.lemma_filter_contains(pred, i);
    }
    if all.filter(pred).contains(g) {
        all.lemma_filter_contains_rev(pred, g);
    }
}

/// Setting one field's boolean adds exactly that field to the record and
/// leaves every other field as its own boolean says.
pub proof fn lemma_toggle_registry_field(fields: RegistryFields, f: RegistryField, g: RegistryField)
    requires
        !field_enabled(fields, f),
    ensures
        selected_fields_spec(with_field(fields, f, true)).contains(g) <==> (g == f
            || selected_fields_spec(fields).contains(g)),
        !selected_fields_spec(fields).contains(f),
        selected_fields_spec(with_field(fields, f, true)).contains(f),
{
    lemma_selected_iff_enabled(fields, g);
    lemma_selected_iff_enabled(with_field(fields, f, true), g);
    lemma_selected_iff_enabled(fields, f);
    lemma_selected_iff_enabled(with_field(fields, f, true), f);
}

} // verus!
