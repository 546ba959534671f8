use vstd::prelude::*;

verus! {

/// The compatibility flag that asks for elevation on every start.
pub open spec fn admin_flag_spec() -> Seq<char> {
    "~ RUNASADMIN"@
}

/// A change to the compatibility-flags values of one user: set the value
/// named after an executable, or remove it.
#[derive(Clone, Debug)]
pub struct LayersEdit {
    pub value_name: String,
    /// The data to store; `None` removes the value.
    pub value: Option<String>,
}

/// The values after setting (`revert` false) or removing (`revert` true)
/// the flag of executable `exe`.
pub open spec fn layers_after(layers: Map<Seq<char>, Seq<char>>, exe: Seq<char>, revert: bool) -> Map<Seq<char>, Seq<char>> {
    if revert {
        layers.remove(exe)
    } else {
        layers.insert(exe, admin_flag_spec())
    }
}

/// The values after applying an edit.
pub open spec fn apply_edit(layers: Map<Seq<char>, Seq<char>>, name: Seq<char>, value: Option<Seq<char>>) -> Map<Seq<char>, Seq<char>> {
    match value {
        Some(v) => layers.insert(name, v),
        None => layers.remove(name),
    }
}

/// The edit that marks `exe` to run elevated, or removes that mark.
pub fn elevation_edit(exe: &str, revert: bool) -> (r: LayersEdit)
    ensures
        r.value_name@ == exe@,
        r.value is None <==> revert,
        forall|layers: Map<Seq<char>, Seq<char>>|
            apply_edit(
                layers,
                r.value_name@,
                match r.value {
                    Some(v) => Some(v@),
                    None => None,
                },
            ) == layers_after(layers, exe@, revert),
{
    let value = if revert {
        None
    } else {
        Some(String::from_str("~ RUNASADMIN"))
    };
    LayersEdit { value_name: String::from_str(exe), value }
}

pub open spec fn layers_key_spec(sid: Seq<char>) -> Seq<char> {
    "Registry::HKEY_USERS\\"@ + sid + "\\Software\\Microsoft\\Windows NT\\CurrentVersion\\AppCompatFlags\\Layers"@
}

/// The script's part that acts: store `value` under the executable's name,
/// or remove that name (no error where it is absent).
pub open spec fn elevation_operation_spec(value: Option<Seq<char>>) -> Seq<char> {
    match value {
        Some(v) => "$adminFlag = \""@ + v + "\"\nSet-ItemProperty -Path $regPath -Name $programPath -Value $adminFlag\n"@,
        None => "Remove-ItemProperty -Path $regPath -Name $programPath -ErrorAction SilentlyContinue\n"@,
    }
}

/// The PowerShell script that applies the edit (value `name` set to
/// `value`, or removed) in the hive of the user `sid`.
pub open spec fn elevation_script_spec(name: Seq<char>, value: Option<Seq<char>>, sid: Seq<char>) -> Seq<char> {
    "$programPath = \""@ + name + "\"\n$regPath = \""@ + layers_key_spec(sid) + "\"\n"@
        + elevation_operation_spec(value)
}

/// The script that performs `edit` for the user `sid`.
pub fn elevation_script(edit: &LayersEdit, sid: &str) -> (r: String)
    ensures
        r@ == elevation_script_spec(
            edit.value_name@,
            match edit.value {
                Some(v) => Some(v@),
                None => None,
            },
            sid@,
        ),
{
    let head = String::from_str("$programPath = \"").concat(edit.value_name.as_str()).concat(
        "\"\n$regPath = \"",
    ).concat("Registry::HKEY_USERS\\").concat(sid).concat(
        "\\Software\\Microsoft\\Windows NT\\CurrentVersion\\AppCompatFlags\\Layers",
    ).concat("\"\n");
    match &edit.value {
        Some(v) => head.concat("$adminFlag = \"").concat(v.as_str()).concat(
            "\"\nSet-ItemProperty -Path $regPath -Name $programPath -Value $adminFlag\n",
        ),
        None => head.concat(
            "Remove-ItemProperty -Path $regPath -Name $programPath -ErrorAction SilentlyContinue\n",
        ),
    }
}

/// Setting and then removing the flag of an executable that had none
/// leaves the values as they were; removing twice is the same as removing
/// once.
pub proof fn lemma_elevation_round_trip(layers: Map<Seq<char>, Seq<char>>, exe: Seq<char>)
    ensures
        !layers.contains_key(exe) ==> layers_after(layers_after(layers, exe, false), exe, true)
            == layers,
        layers_after(layers_after(layers, exe, true), exe, true) == layers_after(layers, exe, true),
{
    if !layers.contains_key(exe) {
        assert(layers.insert(exe, admin_flag_spec()).remove(exe) =~= layers);
    }
    assert(layers.remove(exe).remove(exe) =~= layers.remove(exe));
}

} // verus!
