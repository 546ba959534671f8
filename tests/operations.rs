use installer::elevation::{elevation_edit, elevation_script};
use installer::listing::{archive_entries, archive_entries_json};
use installer::paths::{is_valid_path_format, validate_path, PathError};

#[test]
fn path_format() {
    assert!(is_valid_path_format(r"C:\"));
    assert!(is_valid_path_format(r"d:\games"));
    assert!(!is_valid_path_format("C:"));
    assert!(!is_valid_path_format(r"1:\x"));
    assert!(!is_valid_path_format("C:/x"));
    assert!(!is_valid_path_format(""));
}

#[test]
fn path_validation() {
    assert_eq!(validate_path(r"C:\x", Some(true)), Ok(()));
    assert_eq!(validate_path(r"C:\x", Some(false)), Err(PathError::NotADirectory));
    assert_eq!(validate_path(r"C:\x", None), Err(PathError::Missing));
    assert_eq!(validate_path("x", Some(true)), Err(PathError::InvalidFormat));
}

#[test]
fn elevation_set_then_revert() {
    let set = elevation_edit(r"C:\App\app.exe", false);
    assert_eq!(set.value_name, r"C:\App\app.exe");
    assert_eq!(set.value.as_deref(), Some("~ RUNASADMIN"));
    let revert = elevation_edit(r"C:\App\app.exe", true);
    assert_eq!(revert.value, None);
    // Apply both to a model of the values: the pre-state comes back.
    let mut layers: Vec<(String, String)> = vec![("other.exe".to_string(), "~ WIN8RTM".to_string())];
    let before = layers.clone();
    for edit in [set, revert.clone(), revert] {
        layers.retain(|(n, _)| *n != edit.value_name);
        if let Some(v) = edit.value {
            layers.push((edit.value_name, v));
        }
    }
    assert_eq!(layers, before);
}

#[test]
fn elevation_scripts() {
    let set = elevation_script(&elevation_edit(r"C:\a.exe", false), "S-1-5");
    assert_eq!(
        set,
        "$programPath = \"C:\\a.exe\"\n$regPath = \"Registry::HKEY_USERS\\S-1-5\\Software\\Microsoft\\Windows NT\\CurrentVersion\\AppCompatFlags\\Layers\"\n$adminFlag = \"~ RUNASADMIN\"\nSet-ItemProperty -Path $regPath -Name $programPath -Value $adminFlag\n"
    );
    let revert = elevation_script(&elevation_edit(r"C:\a.exe", true), "S-1-5");
    assert!(!revert.contains("adminFlag"));
    assert!(revert.ends_with("Remove-ItemProperty -Path $regPath -Name $programPath -ErrorAction SilentlyContinue\n"));
}

fn listing() -> Vec<String> {
    let pad = " ".repeat(53);
    vec![
        "7-Zip 23.01".to_string(),
        "   Date      Time    Attr         Size   Compressed  Name".to_string(),
        "------------------- ----- ------------ ------------  ------------------------".to_string(),
        format!("{}app.exe  ", "2024-01-01 10:00:00 ....A        12345         6789  "),
        format!("{}", "short line"),
        format!("{}   ", pad),
        format!("{}docs\\readme.txt", "2024-01-01 10:00:00 D....            0            0  "),
        "------------------- ----- ------------ ------------  ------------------------".to_string(),
        format!("{}outside.txt", "2024-01-01 10:00:00 ....A        12345         6789  "),
    ]
}

#[test]
fn listing_entries() {
    assert_eq!(archive_entries(&listing()), vec!["app.exe".to_string(), "docs\\readme.txt".to_string()]);
    assert!(archive_entries(&Vec::new()).is_empty());
}

#[test]
fn listing_as_json() {
    assert_eq!(
        archive_entries_json(&listing()).as_deref(),
        Some("[\"app.exe\",\"docs\\\\readme.txt\"]")
    );
    assert_eq!(archive_entries_json(&Vec::new()).as_deref(), Some("[]"));
}
