use eoliann_tools::security::{
    clean_user_list, domain_from_powershell, domain_from_wmic, is_microsoft_account, never_expires_from_powershell,
    never_expires_from_wmic, never_expires_script, password_expires_query, password_never_expires,
    principal_source_script, require_username, set_never_expires_outcome, set_never_expires_script,
    set_password_expires_command,
};

#[test]
fn domain_from_wmic_output() {
    let text = "\r\n\r\nDomain=CORP.LOCAL\r\nPartOfDomain=TRUE\r\n\r\n";
    assert_eq!(domain_from_wmic(text), Some((true, "CORP.LOCAL".to_string())));
    assert_eq!(domain_from_wmic("Domain=WORKGROUP\nPartOfDomain=FALSE\n"), Some((false, "WORKGROUP".to_string())));
    assert_eq!(domain_from_wmic("PartOfDomain=true\nDomain=\n"), Some((true, String::new())));
    assert_eq!(domain_from_wmic("'wmic' is not recognized"), None);
}

#[test]
fn domain_from_powershell_output() {
    assert_eq!(domain_from_powershell("PartOfDomain=True\nDomain=corp.example"), (true, "corp.example".to_string()));
    assert_eq!(domain_from_powershell("PartOfDomain=False\nDomain=WORKGROUP\n"), (false, "WORKGROUP".to_string()));
    assert_eq!(domain_from_powershell("garbage"), (false, String::new()));
}

#[test]
fn local_users_are_cleaned_sorted_and_deduplicated() {
    let out = "  zoe \r\nAdministrator\r\nGuest\r\nadam\r\n\r\nzoe\r\nDefaultAccount\r\nWDAGUtilityAccount\r\nBob\r\n";
    assert_eq!(clean_user_list(out), vec!["Bob".to_string(), "adam".to_string(), "zoe".to_string()]);
    assert!(clean_user_list("").is_empty());
}

#[test]
fn microsoft_account_detection() {
    assert!(is_microsoft_account("ana", "PS=MicrosoftAccount\r\n"));
    assert!(is_microsoft_account("ana", "x\n  ps=microsoftaccount  \n"));
    assert!(!is_microsoft_account("ana", "PS=Local\n"));
    assert!(!is_microsoft_account("   ", "PS=MicrosoftAccount\n"));
    assert_eq!(
        principal_source_script("a\"b"),
        "$u=Get-LocalUser -Name \"a\\\"b\"; \"PS=\"+$u.PrincipalSource"
    );
}

#[test]
fn password_expiration_reading() {
    assert_eq!(never_expires_from_powershell("PNE=True\n"), Some(true));
    assert_eq!(never_expires_from_powershell("PNE=\nPNE=false\n"), Some(false));
    assert_eq!(never_expires_from_powershell("nothing"), None);
    assert_eq!(never_expires_from_wmic("\r\nPasswordExpires=TRUE\r\n"), Some(false));
    assert_eq!(never_expires_from_wmic("PasswordExpires=FALSE"), Some(true));
    assert_eq!(password_never_expires("  ", "PNE=True", Ok("")).unwrap_err(), "Empty username");
    assert_eq!(password_never_expires("ana", "PNE=True", Err("x")), Ok(true));
    assert_eq!(password_never_expires("ana", " odd ", Ok("PasswordExpires=TRUE")), Ok(false));
    assert_eq!(password_never_expires("ana", " odd ", Err("nope")).unwrap_err(), "Failed to run WMIC: nope");
    assert_eq!(password_never_expires("ana", " odd \n", Ok("")).unwrap_err(), "Cannot determine status. Raw: odd");
    assert_eq!(never_expires_script("ana"), "$u=Get-LocalUser -Name \"ana\"; \"PNE=\"+$u.PasswordNeverExpires");
    assert_eq!(password_expires_query("o'neil"), "wmic UserAccount where Name='o''neil' get PasswordExpires /value");
}

#[test]
fn password_expiration_setting() {
    assert_eq!(require_username(" ").unwrap_err(), "Empty username");
    assert!(require_username("ana").is_ok());
    assert_eq!(set_never_expires_script("ana", true), "Set-LocalUser -Name \"ana\" -PasswordNeverExpires $true");
    assert_eq!(set_never_expires_script("ana", false), "Set-LocalUser -Name \"ana\" -PasswordNeverExpires $false");
    assert_eq!(
        set_password_expires_command("ana", true),
        "wmic UserAccount where Name='ana' set PasswordExpires=False"
    );
    assert!(set_never_expires_outcome(true, Err("x".to_string())).is_ok());
    assert!(set_never_expires_outcome(false, Ok(true)).is_ok());
    assert_eq!(set_never_expires_outcome(false, Ok(false)).unwrap_err(), "Failed to update password expiration.");
    assert_eq!(set_never_expires_outcome(false, Err("e".to_string())).unwrap_err(), "Failed to run WMIC: e");
}
