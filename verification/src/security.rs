//! Account and domain facts for the security panel, read from the output of
//! `wmic`, PowerShell and `Get-LocalUser`.
use vstd::prelude::*;

use crate::order::{insert_sorted, strictly_sorted};
use crate::text::{
    chars_of, concat2, concat3, eq_ascii_ci, eq_ignore_ascii_case, lines, lit, replace_all_char, replace_char,
    split_lines, string_of, strip_prefix, has_prefix, trim, trim_chars, views,
};

verus! {

/// The value after `key` on a trimmed line that starts with it, trimmed.
pub open spec fn value_of(line: Seq<char>, key: Seq<char>) -> Option<Seq<char>> {
    let l = trim(line);
    if has_prefix(l, key) {
        Some(trim(l.subrange(key.len() as int, l.len() as int)))
    } else {
        None
    }
}

fn value_in(line: &Vec<char>, key: &str) -> (r: Option<Vec<char>>)
    ensures
        match r {
            Some(v) => value_of(line@, key@) == Some(v@),
            None => value_of(line@, key@) is None,
        },
{
    let l = trim_chars(line);
    match strip_prefix(&l, &chars_of(key)) {
        Some(v) => Some(trim_chars(&v)),
        None => None,
    }
}

/// What `wmic computersystem get PartOfDomain,Domain /value` says: the last
/// `PartOfDomain=` value (whether it is `TRUE`, in any case), and the last
/// non-empty `Domain=` value. A line is read as `PartOfDomain=` first.
pub open spec fn wmic_domain(ls: Seq<Seq<char>>) -> (Option<bool>, Option<Seq<char>>)
    decreases ls.len(),
{
    if ls.len() == 0 {
        (None, None)
    } else {
        let (p, d) = wmic_domain(ls.drop_last());
        let l = ls.last();
        match value_of(l, "PartOfDomain="@) {
            Some(v) => (Some(eq_ascii_ci(v, "TRUE"@)), d),
            None => match value_of(l, "Domain="@) {
                Some(v) => if v.len() > 0 {
                    (p, Some(v))
                } else {
                    (p, d)
                },
                None => (p, d),
            },
        }
    }
}

/// The domain membership that `wmic` reports, if it reports one: whether the
/// computer is part of a domain, and the domain's name (empty when none).
pub fn domain_from_wmic(text: &str) -> (r: Option<(bool, String)>)
    ensures
        ({
            let (p, d) = wmic_domain(lines(text@));
            match r {
                Some((part, dom)) => p == Some(part) && dom@ == (match d {
                    Some(x) => x,
                    None => seq![],
                }),
                None => p is None,
            }
        }),
{
    let ls = split_lines(&chars_of(text));
    let ghost lv = views(ls@);
    let mut part: Option<bool> = None;
    let mut dom: Option<Vec<char>> = None;
    let mut i: usize = 0;
    while i < ls.len()
        invariant
            i <= ls.len(),
            lv == views(ls@),
            lv == lines(text@),
            ({
                let (p, d) = wmic_domain(lv.subrange(0, i as int));
                &&& p == part
                &&& d == (match dom {
                    Some(v) => Some(v@),
                    None => None,
                })
            }),
        decreases ls.len() - i,
    {
        assert(lv.subrange(0, i + 1).drop_last() =~= lv.subrange(0, i as int));
        match value_in(&ls[i], "PartOfDomain=") {
            Some(v) => {
                part = Some(eq_ignore_ascii_case(&v, &chars_of("TRUE")));
            },
            None => match value_in(&ls[i], "Domain=") {
                Some(v) => {
                    if v.len() > 0 {
                        dom = Some(v);
                    }
                },
                None => {},
            },
        }
        i = i + 1;
    }
    assert(lv.subrange(0, ls.len() as int) =~= lv);
    match part {
        Some(p) => {
            let d = match dom {
                Some(v) => string_of(&v),
                None => String::new(),
            };
            Some((p, d))
        },
        None => None,
    }
}

/// What the PowerShell fallback says: the last `PartOfDomain=` value (whether
/// it is `True`, in any case) and the last `Domain=` value; `false` and empty
/// when missing.
pub open spec fn ps_domain(ls: Seq<Seq<char>>) -> (bool, Seq<char>)
    decreases ls.len(),
{
    if ls.len() == 0 {
        (false, seq![])
    } else {
        let (p, d) = ps_domain(ls.drop_last());
        let l = ls.last();
        match value_of(l, "PartOfDomain="@) {
            Some(v) => (eq_ascii_ci(v, "True"@), d),
            None => match value_of(l, "Domain="@) {
                Some(v) => (p, v),
                None => (p, d),
            },
        }
    }
}

/// The domain membership from the PowerShell fallback's output.
pub fn domain_from_powershell(text: &str) -> (r: (bool, String))
    ensures
        (r.0, r.1@) == ps_domain(lines(text@)),
{
    let ls = split_lines(&chars_of(text));
    let ghost lv = views(ls@);
    let mut part = false;
    let mut dom: Vec<char> = Vec::new();
    let mut i: usize = 0;
    while i < ls.len()
        invariant
            i <= ls.len(),
            lv == views(ls@),
            lv == lines(text@),
            (part, dom@) == ps_domain(lv.subrange(0, i as int)),
        decreases ls.len() - i,
    {
        assert(lv.subrange(0, i + 1).drop_last() =~= lv.subrange(0, i as int));
        match value_in(&ls[i], "PartOfDomain=") {
            Some(v) => {
                part = eq_ignore_ascii_case(&v, &chars_of("True"));
            },
            None => match value_in(&ls[i], "Domain=") {
                Some(v) => {
                    dom = v;
                },
                None => {},
            },
        }
        i = i + 1;
    }
    assert(lv.subrange(0, ls.len() as int) =~= lv);
    (part, string_of(&dom))
}

/// The built-in accounts that the user list leaves out (in any case).
pub open spec fn denied(u: Seq<char>) -> bool {
    eq_ascii_ci(u, "administrator"@) || eq_ascii_ci(u, "defaultaccount"@) || eq_ascii_ci(u, "guest"@) || eq_ascii_ci(
        u,
        "wdagutilityaccount"@,
    )
}

fn is_denied(u: &Vec<char>) -> (r: bool)
    ensures
        r == denied(u@),
{
    eq_ignore_ascii_case(u, &chars_of("administrator")) || eq_ignore_ascii_case(u, &chars_of("defaultaccount"))
        || eq_ignore_ascii_case(u, &chars_of("guest")) || eq_ignore_ascii_case(u, &chars_of("wdagutilityaccount"))
}

/// The account names listed: trimmed lines that are not empty and not built in.
pub open spec fn user_names(ls: Seq<Seq<char>>) -> Seq<Seq<char>>
    decreases ls.len(),
{
    if ls.len() == 0 {
        seq![]
    } else {
        let u = trim(ls.last());
        user_names(ls.drop_last()) + if u.len() > 0 && !denied(u) {
            seq![u]
        } else {
            seq![]
        }
    }
}

/// The enabled local accounts: the names listed, without the built-in ones, in
/// order and each once (`sort` then `dedup`; UTF-8 byte order is code point
/// order).
pub fn clean_user_list(out: &str) -> (r: Vec<String>)
    ensures
        strictly_sorted(r@.map_values(|s: String| s@)),
        forall|x: Seq<char>| r@.map_values(|s: String| s@).contains(x) <==> user_names(lines(out@)).contains(x),
{
    let ls = split_lines(&chars_of(out));
    let ghost lv = views(ls@);
    let mut acc: Vec<Vec<char>> = Vec::new();
    let mut i: usize = 0;
    while i < ls.len()
        invariant
            i <= ls.len(),
            lv == views(ls@),
            lv == lines(out@),
            strictly_sorted(views(acc@)),
            forall|x: Seq<char>| views(acc@).contains(x) <==> user_names(lv.subrange(0, i as int)).contains(x),
        decreases ls.len() - i,
    {
        let ghost before = user_names(lv.subrange(0, i as int));
        assert(lv.subrange(0, i + 1).drop_last() =~= lv.subrange(0, i as int));
        let u = trim_chars(&ls[i]);
        let ghost uv = u@;
        if u.len() > 0 && !is_denied(&u) {
            let ghost oldv = views(acc@);
            insert_sorted(&mut acc, u);
            assert forall|x: Seq<char>| views(acc@).contains(x) <==> user_names(lv.subrange(0, i + 1)).contains(x) by {
                assert(views(acc@).contains(x) <==> (oldv.contains(x) || x == uv));
                assert(oldv.contains(x) <==> before.contains(x));
                assert(user_names(lv.subrange(0, i + 1)) =~= before + seq![uv]);
                if x == uv {
                    assert((before + seq![uv])[before.len() as int] == x);
                }
                if before.contains(x) {
                    let j = choose|j: int| 0 <= j < before.len() && before[j] == x;
                    assert((before + seq![uv])[j] == x);
                }
                if (before + seq![uv]).contains(x) {
                    let j = choose|j: int| 0 <= j < before.len() + 1 && (before + seq![uv])[j] == x;
                    if j < before.len() {
                        assert(before[j] == x);
                    }
                }
            }
        } else {
            assert(user_names(lv.subrange(0, i + 1)) =~= before);
        }
        i = i + 1;
    }
    assert(lv.subrange(0, ls.len() as int) =~= lv);
    let mut r: Vec<String> = Vec::new();
    let mut j: usize = 0;
    while j < acc.len()
        invariant
            j <= acc.len(),
            r@.map_values(|s: String| s@) == views(acc@).subrange(0, j as int),
        decreases acc.len() - j,
    {
        let s = string_of(&acc[j]);
        let ghost before = r@.map_values(|s: String| s@);
        r.push(s);
        assert(r@.map_values(|s: String| s@) =~= before.push(acc@[j as int]@));
        assert(views(acc@).subrange(0, j + 1) =~= views(acc@).subrange(0, j as int).push(acc@[j as int]@));
        j = j + 1;
    }
    assert(views(acc@).subrange(0, acc.len() as int) =~= views(acc@));
    r
}

/// `s` inside a double-quoted PowerShell string: each `"` escaped as `\"`.
pub open spec fn ps_double(s: Seq<char>) -> Seq<char> {
    replace_char(s, '"', seq!['\\', '"'])
}

/// `s` inside a single-quoted WQL string: each `'` doubled.
pub open spec fn wql_single(s: Seq<char>) -> Seq<char> {
    replace_char(s, '\'', seq!['\'', '\''])
}

fn quote_double(s: &str) -> (r: String)
    ensures
        r@ == ps_double(s@),
{
    let rep = vec!['\\', '"'];
    string_of(&replace_all_char(&chars_of(s), '"', &rep))
}

fn quote_wql(s: &str) -> (r: String)
    ensures
        r@ == wql_single(s@),
{
    let rep = vec!['\'', '\''];
    string_of(&replace_all_char(&chars_of(s), '\'', &rep))
}

/// The PowerShell line that prints where the account `username` comes from.
pub fn principal_source_script(username: &str) -> (r: String)
    ensures
        r@ == "$u=Get-LocalUser -Name \""@ + ps_double(username@) + "\"; \"PS=\"+$u.PrincipalSource"@,
{
    concat3("$u=Get-LocalUser -Name \"", quote_double(username).as_str(), "\"; \"PS=\"+$u.PrincipalSource")
}

/// Whether some line of `lines`, trimmed, is `PS=MicrosoftAccount` (in any case).
pub open spec fn any_ms_line(ls: Seq<Seq<char>>) -> bool {
    exists|i: int| 0 <= i < ls.len() && eq_ascii_ci(trim(#[trigger] ls[i]), "PS=MicrosoftAccount"@)
}

/// Whether the account is a Microsoft account: its name is not blank and the
/// probe printed `PS=MicrosoftAccount`.
pub fn is_microsoft_account(username: &str, out: &str) -> (r: bool)
    ensures
        r == (trim(username@).len() > 0 && any_ms_line(lines(out@))),
{
    if trim_chars(&chars_of(username)).len() == 0 {
        return false;
    }
    let ls = split_lines(&chars_of(out));
    let ghost lv = views(ls@);
    let key = chars_of("PS=MicrosoftAccount");
    let mut i: usize = 0;
    while i < ls.len()
        invariant
            i <= ls.len(),
            lv == views(ls@),
            lv == lines(out@),
            key@ == "PS=MicrosoftAccount"@,
            trim(username@).len() > 0,
            forall|j: int| 0 <= j < i ==> !eq_ascii_ci(trim(#[trigger] lv[j]), "PS=MicrosoftAccount"@),
        decreases ls.len() - i,
    {
        if eq_ignore_ascii_case(&trim_chars(&ls[i]), &key) {
            assert(eq_ascii_ci(trim(lv[i as int]), "PS=MicrosoftAccount"@));
            assert(lines(out@)[i as int] == lv[i as int]);
            return true;
        }
        i = i + 1;
    }
    false
}

/// The first decisive `key` line: its value is `yes` or `no` (in any case),
/// meaning `true` or `false` when `direct`, the opposite when not.
pub open spec fn first_verdict(ls: Seq<Seq<char>>, key: Seq<char>, yes: Seq<char>, no: Seq<char>) -> Option<bool>
    decreases ls.len(),
{
    if ls.len() == 0 {
        None
    } else {
        match value_of(ls[0], key) {
            Some(v) => if eq_ascii_ci(v, yes) {
                Some(true)
            } else if eq_ascii_ci(v, no) {
                Some(false)
            } else {
                first_verdict(ls.drop_first(), key, yes, no)
            },
            None => first_verdict(ls.drop_first(), key, yes, no),
        }
    }
}

fn verdict(text: &str, key: &str, yes: &str, no: &str) -> (r: Option<bool>)
    ensures
        r == first_verdict(lines(text@), key@, yes@, no@),
{
    let ls = split_lines(&chars_of(text));
    let ghost lv = views(ls@);
    let y = chars_of(yes);
    let n = chars_of(no);
    assert(lv.subrange(0, lv.len() as int) =~= lv);
    let mut i: usize = 0;
    while i < ls.len()
        invariant
            i <= ls.len(),
            lv == views(ls@),
            lv == lines(text@),
            y@ == yes@,
            n@ == no@,
            first_verdict(lv, key@, yes@, no@) == first_verdict(lv.subrange(i as int, lv.len() as int), key@, yes@, no@),
        decreases ls.len() - i,
    {
        let ghost rest = lv.subrange(i as int, lv.len() as int);
        assert(rest[0] == lv[i as int]);
        assert(rest.drop_first() =~= lv.subrange(i + 1, lv.len() as int));
        match value_in(&ls[i], key) {
            Some(v) => {
                if eq_ignore_ascii_case(&v, &y) {
                    return Some(true);
                }
                if eq_ignore_ascii_case(&v, &n) {
                    return Some(false);
                }
            },
            None => {},
        }
        i = i + 1;
    }
    assert(lv.subrange(ls.len() as int, lv.len() as int) =~= Seq::<Seq<char>>::empty());
    assert(lv.subrange(0, lv.len() as int) =~= lv);
    None
}

/// Whether the password never expires, by the PowerShell probe: its first
/// `PNE=` line that says `True` or `False`.
pub fn never_expires_from_powershell(out: &str) -> (r: Option<bool>)
    ensures
        r == first_verdict(lines(out@), "PNE="@, "True"@, "False"@),
{
    verdict(out, "PNE=", "True", "False")
}

/// Whether the password never expires, by `wmic`: its first `PasswordExpires=`
/// line that says `TRUE` (it expires) or `FALSE` (it never does).
pub fn never_expires_from_wmic(text: &str) -> (r: Option<bool>)
    ensures
        r == match first_verdict(lines(text@), "PasswordExpires="@, "TRUE"@, "FALSE"@) {
            Some(b) => Some(!b),
            None => None,
        },
{
    match verdict(text, "PasswordExpires=", "TRUE", "FALSE") {
        Some(b) => Some(!b),
        None => None,
    }
}

/// The PowerShell line that prints `PasswordNeverExpires` of `username`.
pub fn never_expires_script(username: &str) -> (r: String)
    ensures
        r@ == "$u=Get-LocalUser -Name \""@ + ps_double(username@) + "\"; \"PNE=\"+$u.PasswordNeverExpires"@,
{
    concat3("$u=Get-LocalUser -Name \"", quote_double(username).as_str(), "\"; \"PNE=\"+$u.PasswordNeverExpires")
}

/// The `wmic` query of `PasswordExpires` of `username`.
pub fn password_expires_query(username: &str) -> (r: String)
    ensures
        r@ == "wmic UserAccount where Name='"@ + wql_single(username@) + "' get PasswordExpires /value"@,
{
    concat3("wmic UserAccount where Name='", quote_wql(username).as_str(), "' get PasswordExpires /value")
}

/// Whether the password of `username` never expires, from the PowerShell
/// probe and, when that is not decisive, the `wmic` query (its text, or the
/// error of running it). A blank name is refused first.
pub fn password_never_expires(username: &str, ps_out: &str, wmic: Result<&str, &str>) -> (r: Result<bool, String>)
    ensures
        trim(username@).len() == 0 ==> (r matches Err(e) && e@ == "Empty username"@),
        trim(username@).len() > 0 ==> match first_verdict(lines(ps_out@), "PNE="@, "True"@, "False"@) {
            Some(b) => r == Ok::<bool, String>(b),
            None => match wmic {
                Err(e) => r matches Err(m) && m@ == "Failed to run WMIC: "@ + e@,
                Ok(t) => match first_verdict(lines(t@), "PasswordExpires="@, "TRUE"@, "FALSE"@) {
                    Some(b) => r == Ok::<bool, String>(!b),
                    None => r matches Err(m) && m@ == "Cannot determine status. Raw: "@ + trim(ps_out@),
                },
            },
        },
{
    if trim_chars(&chars_of(username)).len() == 0 {
        return Err(lit("Empty username"));
    }
    match never_expires_from_powershell(ps_out) {
        Some(b) => Ok(b),
        None => match wmic {
            Err(e) => Err(concat2("Failed to run WMIC: ", e)),
            Ok(t) => match never_expires_from_wmic(t) {
                Some(b) => Ok(b),
                None => Err(concat2("Cannot determine status. Raw: ", string_of(&trim_chars(&chars_of(ps_out))).as_str())),
            },
        },
    }
}

/// A blank account name is refused before anything is run.
pub fn require_username(username: &str) -> (r: Result<(), String>)
    ensures
        trim(username@).len() == 0 ==> (r matches Err(e) && e@ == "Empty username"@),
        trim(username@).len() > 0 ==> r is Ok,
{
    if trim_chars(&chars_of(username)).len() == 0 {
        Err(lit("Empty username"))
    } else {
        Ok(())
    }
}

/// The PowerShell line that sets `PasswordNeverExpires` of `username`.
pub fn set_never_expires_script(username: &str, target: bool) -> (r: String)
    ensures
        r@ == "Set-LocalUser -Name \""@ + ps_double(username@) + "\" -PasswordNeverExpires "@ + (if target {
            "$true"@
        } else {
            "$false"@
        }),
{
    let v = if target {
        "$true"
    } else {
        "$false"
    };
    let mut r = concat3("Set-LocalUser -Name \"", quote_double(username).as_str(), "\" -PasswordNeverExpires ");
    r.append(v);
    r
}

/// The `wmic` fallback that sets `PasswordExpires` (the opposite of the target).
pub fn set_password_expires_command(username: &str, target: bool) -> (r: String)
    ensures
        r@ == "wmic UserAccount where Name='"@ + wql_single(username@) + "' set PasswordExpires="@ + (if target {
            "False"@
        } else {
            "True"@
        }),
{
    let mut r = concat3("wmic UserAccount where Name='", quote_wql(username).as_str(), "' set PasswordExpires=");
    if target {
        r.append("False");
    } else {
        r.append("True");
    }
    r
}

/// How setting the expiration ended: the PowerShell run succeeded; or the `wmic`
/// fallback could not run, failed, or succeeded.
pub fn set_never_expires_outcome(ps_ok: bool, wmic: Result<bool, String>) -> (r: Result<(), String>)
    ensures
        ps_ok ==> r is Ok,
        !ps_ok ==> match wmic {
            Err(e) => r matches Err(m) && m@ == "Failed to run WMIC: "@ + e@,
            Ok(true) => r is Ok,
            Ok(false) => r matches Err(m) && m@ == "Failed to update password expiration."@,
        },
{
    if ps_ok {
        return Ok(());
    }
    match wmic {
        Err(e) => Err(concat2("Failed to run WMIC: ", e.as_str())),
        Ok(true) => Ok(()),
        Ok(false) => Err(lit("Failed to update password expiration.")),
    }
}

/// The user list never holds a built-in account, a blank name, or a name with
/// white space around it.
pub proof fn lemma_user_names_clean(ls: Seq<Seq<char>>, x: Seq<char>)
    requires
        user_names(ls).contains(x),
    ensures
        !denied(x),
        x.len() > 0,
        x == trim(x),
    decreases ls.len(),
{
    if ls.len() > 0 {
        let prev = user_names(ls.drop_last());
        let u = trim(ls.last());
        let tail: Seq<Seq<char>> = if u.len() > 0 && !denied(u) { seq![u] } else { seq![] };
        assert(user_names(ls) == prev + tail);
        let i = choose|i: int| 0 <= i < user_names(ls).len() && user_names(ls)[i] == x;
        if i < prev.len() {
            assert(prev[i] == x);
            lemma_user_names_clean(ls.drop_last(), x);
        } else {
            assert(x == u);
            crate::text::lemma_trim_idempotent(ls.last());
        }
    }
}

} // verus!
