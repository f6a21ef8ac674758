//! The permissions that the app needs of the system.
use crate::state::AppState;
use crate::text::{chars_of, same_text, trim, trimmed};
use vstd::prelude::*;
use vstd::string::*;

verus! {

/// Whether the hotkey has its permissions; it needs both.
#[derive(Debug, Clone, Copy, PartialEq, Eq, Structural)]
pub struct HotkeyPermissionEvent {
    pub accessibility: bool,
    pub input_monitoring: bool,
    pub ok: bool,
}

/// What the user is told of the permissions, and whether the hotkeys are registered again.
#[derive(Debug, Clone, Copy, PartialEq, Eq, Structural)]
pub enum PermissionChange {
    /// They are back: the hotkeys are registered again and the user is told.
    Recovered,
    /// They are gone, or were never there: the user is told.
    Lost,
    /// Nothing is done.
    Unchanged,
}

/// What is to be told when the permissions were `before` and are now `ok`.
pub open spec fn permission_change(before: Option<bool>, ok: bool) -> PermissionChange {
    if before == Some(false) && ok {
        PermissionChange::Recovered
    } else if before != Some(false) && !ok {
        PermissionChange::Lost
    } else {
        PermissionChange::Unchanged
    }
}

/// The two permissions that the hotkey depends on, the one for accessibility first.
pub fn read_hotkey_permission_flags(accessibility_trusted: bool, input_monitoring: bool) -> (r: (
    bool,
    bool,
))
    ensures
        r == (accessibility_trusted, input_monitoring),
{
    (accessibility_trusted, input_monitoring)
}

/// Takes in the permissions as they are now.
pub fn check_hotkey_permissions(state: &mut AppState, flags: (bool, bool)) -> (r: (
    HotkeyPermissionEvent,
    PermissionChange,
))
    ensures
        r.0 == (HotkeyPermissionEvent {
            accessibility: flags.0,
            input_monitoring: flags.1,
            ok: flags.0 && flags.1,
        }),
        r.1 == permission_change(old(state).last_hotkey_permission_ok, r.0.ok),
        *final(state) == (AppState {
            last_hotkey_permission_ok: Some(flags.0 && flags.1),
            ..*old(state)
        }),
{
    let (accessibility, input_monitoring) = flags;
    let ok = accessibility && input_monitoring;
    let before = state.last_hotkey_permission_ok;
    state.last_hotkey_permission_ok = Some(ok);
    let change = match before {
        Some(false) => if ok {
            PermissionChange::Recovered
        } else {
            PermissionChange::Unchanged
        },
        _ => if ok {
            PermissionChange::Unchanged
        } else {
            PermissionChange::Lost
        },
    };
    (HotkeyPermissionEvent { accessibility, input_monitoring, ok }, change)
}

/// What was known of the permissions after the first `n` of these looks at them.
pub open spec fn known_after(looks: Seq<bool>, n: int) -> Option<bool> {
    if n > 0 {
        Some(looks[n - 1])
    } else {
        None
    }
}

/// What is told at look `n` of a series.
pub open spec fn change_at(looks: Seq<bool>, n: int) -> PermissionChange {
    permission_change(known_after(looks, n), looks[n])
}

/// The user is told only of a change: at a look that finds what the last one found, nothing is
/// done.
pub proof fn law_same_permissions_are_told_once(looks: Seq<bool>, n: int)
    requires
        0 < n < looks.len(),
        looks[n] == looks[n - 1],
    ensures
        change_at(looks, n) is Unchanged,
{
}

/// Before the user is told that the permissions are back, they were told that these were gone,
/// and nothing in between.
pub proof fn law_recovery_follows_loss(looks: Seq<bool>, n: int)
    requires
        0 <= n < looks.len(),
        change_at(looks, n) is Recovered,
    ensures
        exists|m: int|
            0 <= m < n && #[trigger] change_at(looks, m) is Lost && forall|k: int|
                m < k < n ==> #[trigger] change_at(looks, k) is Unchanged,
{
    lemma_loss_before(looks, n - 1);
}

/// A look that finds no permissions was preceded by the news that they are gone, with no news
/// since.
proof fn lemma_loss_before(looks: Seq<bool>, n: int)
    requires
        0 <= n < looks.len(),
        !looks[n],
    ensures
        exists|m: int|
            0 <= m <= n && #[trigger] change_at(looks, m) is Lost && forall|k: int|
                m < k <= n ==> #[trigger] change_at(looks, k) is Unchanged,
    decreases n,
{
    if n == 0 || looks[n - 1] {
        assert(change_at(looks, n) is Lost);
    } else {
        lemma_loss_before(looks, n - 1);
        let m = choose|m: int|
            0 <= m <= n - 1 && #[trigger] change_at(looks, m) is Lost && forall|k: int|
                m < k <= n - 1 ==> #[trigger] change_at(looks, k) is Unchanged;
        assert forall|k: int| m < k <= n implies #[trigger] change_at(looks, k) is Unchanged by {
            if k == n {
                assert(change_at(looks, n) is Unchanged);
            }
        }
        assert(change_at(looks, m) is Lost);
    }
}

/// What the user is told of the permissions.
pub open spec fn permission_notice(recovered: bool, ui_language: Seq<char>) -> Seq<char> {
    if recovered {
        if ui_language == "en"@ {
            "Permissions restored — hotkey re-registered."@
        } else {
            "権限が復旧しました。ホットキーを再登録しました。"@
        }
    } else if ui_language == "en"@ {
        "Accessibility / Input Monitoring permission is missing. The hotkey won't work until it's granted in System Settings."@
    } else {
        "アクセシビリティ／入力監視の権限がありません。システム設定で許可するまでホットキーが反応しません。"@
    }
}

/// How a character is written inside a quoted text of the script language.
pub open spec fn escaped_char(c: char) -> Seq<char> {
    if c == '\\' || c == '"' {
        seq!['\\', c]
    } else {
        seq![c]
    }
}

/// How a text is written inside quotes.
pub open spec fn escaped(text: Seq<char>) -> Seq<char>
    decreases text.len(),
{
    if text.len() == 0 {
        seq![]
    } else {
        escaped(text.drop_last()) + escaped_char(text.last())
    }
}

/// A text written so that it can stand inside quotes.
pub fn escape(text: &str) -> (r: String)
    ensures
        r@ == escaped(text@),
{
    let v = chars_of(text);
    let mut r = String::new();
    for i in 0..v.len()
        invariant
            v@ == text@,
            r@ == escaped(text@.take(i as int)),
    {
        let c: char = v[i];
        assert(text@.take(i + 1).drop_last() =~= text@.take(i as int));
        if c == '\\' || c == '"' {
            r.push('\\');
        }
        r.push(c);
        assert(r@ =~= escaped(text@.take(i + 1)));
    }
    assert(text@.take(text@.len() as int) =~= text@);
    r
}

/// The script that posts a notification.
pub open spec fn notification_script_text(title: Seq<char>, body: Seq<char>) -> Seq<char> {
    "display notification \""@ + escaped(body) + "\" with title \""@ + escaped(title) + "\""@
}

/// The script that posts a notification.
pub fn notification_script(title: &str, body: &str) -> (r: String)
    ensures
        r@ == notification_script_text(title@, body@),
{
    let mut r = "display notification \"".to_owned();
    r.append(escape(body).as_str());
    r.append("\" with title \"");
    r.append(escape(title).as_str());
    r.append("\"");
    r
}

/// The script that tells the user that the permissions are back, or that they are gone.
pub fn notify_permission_change(recovered: bool, ui_language: &str) -> (r: String)
    ensures
        r@ == notification_script_text("Flow"@, permission_notice(recovered, ui_language@)),
{
    let english = same_text(ui_language, "en");
    let body = if recovered {
        if english {
            "Permissions restored — hotkey re-registered."
        } else {
            "権限が復旧しました。ホットキーを再登録しました。"
        }
    } else if english {
        "Accessibility / Input Monitoring permission is missing. The hotkey won't work until it's granted in System Settings."
    } else {
        "アクセシビリティ／入力監視の権限がありません。システム設定で許可するまでホットキーが反応しません。"
    };
    notification_script("Flow", body)
}

/// What stands inside quotes that were opened before `s`, and what follows the closing quote; a
/// backslash takes the character after it as it is. `None` if the quotes are never closed.
pub open spec fn read_quoted(s: Seq<char>) -> Option<(Seq<char>, Seq<char>)>
    decreases s.len(),
{
    if s.len() == 0 {
        None
    } else if s[0] == '"' {
        Some((seq![], s.skip(1)))
    } else {
        let taken: int = if s[0] == '\\' {
            1
        } else {
            0
        };
        if taken >= s.len() {
            None
        } else {
            match read_quoted(s.skip(taken + 1)) {
                Some((text, rest)) => Some((seq![s[taken]] + text, rest)),
                None => None,
            }
        }
    }
}

proof fn lemma_escaped_cons(c: char, text: Seq<char>)
    ensures
        escaped(seq![c] + text) == escaped_char(c) + escaped(text),
    decreases text.len(),
{
    let all = seq![c] + text;
    if text.len() == 0 {
        assert(all =~= seq![c]);
        assert(all.drop_last() =~= Seq::<char>::empty());
        assert(escaped(all.drop_last()) =~= Seq::<char>::empty());
        assert(escaped(text) =~= Seq::<char>::empty());
        assert(all.last() == c);
        assert(escaped(all) =~= escaped_char(c) + escaped(text));
    } else {
        assert(all.drop_last() =~= seq![c] + text.drop_last());
        lemma_escaped_cons(c, text.drop_last());
        assert(escaped(all) =~= escaped_char(c) + escaped(text));
    }
}

/// A text inside quotes is read back as it was: it neither closes the quotes nor loses a
/// character.
pub proof fn law_quoted_text_is_read_back(text: Seq<char>, rest: Seq<char>)
    ensures
        read_quoted(escaped(text) + seq!['"'] + rest) == Some((text, rest)),
    decreases text.len(),
{
    let s = escaped(text) + seq!['"'] + rest;
    if text.len() == 0 {
        assert(s.skip(1) =~= rest);
    } else {
        let tail = text.drop_first();
        assert(seq![text[0]] + tail =~= text);
        lemma_escaped_cons(text[0], tail);
        let after = escaped(tail) + seq!['"'] + rest;
        law_quoted_text_is_read_back(tail, rest);
        assert(s =~= escaped_char(text[0]) + after);
        if text[0] == '\\' || text[0] == '"' {
            assert(s[0] == '\\' && s[1] == text[0]);
            assert(s.skip(2) =~= after);
        } else {
            assert(s[0] == text[0]);
            assert(s.skip(1) =~= after);
        }
    }
}

/// The page of the system settings for a permission.
pub open spec fn preference_page(pane: Seq<char>) -> Option<Seq<char>> {
    if pane == "accessibility"@ {
        Some("x-apple.systempreferences:com.apple.preference.security?Privacy_Accessibility"@)
    } else if pane == "input_monitoring"@ {
        Some("x-apple.systempreferences:com.apple.preference.security?Privacy_ListenEvent"@)
    } else if pane == "microphone"@ {
        Some("x-apple.systempreferences:com.apple.preference.security?Privacy_Microphone"@)
    } else {
        None
    }
}

/// The page of the system settings to open, or the error if there is no such page.
pub fn open_system_preferences(pane: &str) -> (r: Result<String, String>)
    ensures
        match preference_page(pane@) {
            Some(page) => r matches Ok(url) && url@ == page,
            None => r matches Err(message) && message@ == "Unknown pane: "@ + pane@,
        },
{
    if same_text(pane, "accessibility") {
        Ok(
            "x-apple.systempreferences:com.apple.preference.security?Privacy_Accessibility".to_owned(),
        )
    } else if same_text(pane, "input_monitoring") {
        Ok(
            "x-apple.systempreferences:com.apple.preference.security?Privacy_ListenEvent".to_owned(),
        )
    } else if same_text(pane, "microphone") {
        Ok("x-apple.systempreferences:com.apple.preference.security?Privacy_Microphone".to_owned())
    } else {
        let mut message = "Unknown pane: ".to_owned();
        message.append(pane);
        Err(message)
    }
}

/// The permissions that the app has.
#[derive(Debug, Clone, Copy, PartialEq, Eq, Structural)]
pub struct PermissionStatus {
    pub accessibility: bool,
    pub microphone: bool,
    pub input_monitoring: bool,
}

/// The permissions that the app has, given what the script that asks for the microphone wrote,
/// if it ran.
pub fn check_permissions(
    accessibility: bool,
    microphone_output: Option<String>,
    input_monitoring: bool,
) -> (r: PermissionStatus)
    ensures
        r == (PermissionStatus {
            accessibility,
            microphone: microphone_output matches Some(output) && trimmed(output@)
                == "authorized"@,
            input_monitoring,
        }),
{
    let microphone = match microphone_output {
        Some(output) => same_text(trim(output.as_str()).as_str(), "authorized"),
        None => false,
    };
    PermissionStatus { accessibility, microphone, input_monitoring }
}

/// The user is told that the permissions are gone when they are first found missing, at the first
/// look or after a look that found them, and that they are back when they are first found again.
pub proof fn law_permission_changes_are_told(looks: Seq<bool>, n: int)
    requires
        0 <= n < looks.len(),
    ensures
        change_at(looks, n) is Lost <==> !looks[n] && (n == 0 || looks[n - 1]),
        change_at(looks, n) is Recovered <==> looks[n] && n > 0 && !looks[n - 1],
        permission_change(None, looks[n]) is Lost <==> !looks[n],
        permission_change(None, looks[n]) is Unchanged <==> looks[n],
        permission_change(Some(looks[0]), looks[n]) is Lost <==> looks[0] && !looks[n],
        permission_change(Some(looks[0]), looks[n]) is Recovered <==> !looks[0] && looks[n],
{
}

/// What the user is told, in English where the app is in English and else in Japanese.
pub proof fn law_notices_are_in_the_language_of_the_app(ui_language: Seq<char>)
    ensures
        ui_language == "en"@ ==> permission_notice(true, ui_language)
            == "Permissions restored — hotkey re-registered."@ && permission_notice(
            false,
            ui_language,
        )
            == "Accessibility / Input Monitoring permission is missing. The hotkey won't work until it's granted in System Settings."@,
        ui_language != "en"@ ==> permission_notice(true, ui_language)
            == "権限が復旧しました。ホットキーを再登録しました。"@ && permission_notice(false, ui_language)
            == "アクセシビリティ／入力監視の権限がありません。システム設定で許可するまでホットキーが反応しません。"@,
{
}

/// The script says what it is to say: behind its opening words the body can be read back, and
/// behind the words that follow the title, and nothing is left after that.
pub proof fn law_notification_can_be_read_back(title: Seq<char>, body: Seq<char>)
    ensures
        exists|first: Seq<char>, second: Seq<char>|
            notification_script_text(title, body) == #[trigger] ("display notification \""@ + first)
                && read_quoted(first) == Some((body, #[trigger] (" with title \""@ + second)))
                && read_quoted(second) == Some((title, Seq::<char>::empty())),
{
    let second = escaped(title) + seq!['"'] + Seq::<char>::empty();
    let rest = " with title \""@ + second;
    let first = escaped(body) + seq!['"'] + rest;
    law_quoted_text_is_read_back(title, Seq::empty());
    law_quoted_text_is_read_back(body, rest);
    reveal_strlit("\" with title \"");
    reveal_strlit(" with title \"");
    reveal_strlit("\"");
    reveal_strlit("display notification \"");
    assert("\" with title \""@ =~= seq!['"'] + " with title \""@);
    assert("\""@ =~= seq!['"']);
    assert(notification_script_text(title, body) =~= "display notification \""@ + first);
}

/// Each permission has its own page, and nothing else has one.
pub proof fn law_pages_of_the_settings(pane: Seq<char>)
    ensures
        preference_page(pane) is Some <==> (pane == "accessibility"@ || pane
            == "input_monitoring"@ || pane == "microphone"@),
        pane == "accessibility"@ ==> preference_page(pane) == Some(
            "x-apple.systempreferences:com.apple.preference.security?Privacy_Accessibility"@,
        ),
        pane == "input_monitoring"@ ==> preference_page(pane) == Some(
            "x-apple.systempreferences:com.apple.preference.security?Privacy_ListenEvent"@,
        ),
        pane == "microphone"@ ==> preference_page(pane) == Some(
            "x-apple.systempreferences:com.apple.preference.security?Privacy_Microphone"@,
        ),
{
    reveal_strlit("accessibility");
    reveal_strlit("input_monitoring");
    reveal_strlit("microphone");
    assert("accessibility"@.len() == 13 && "input_monitoring"@.len() == 16 && "microphone"@.len()
        == 10);
}

/// Inside quotes a backslash is written before a quote and before another backslash, and before
/// nothing else; every other character is written as it is.
pub proof fn law_only_quotes_and_backslashes_are_escaped(text: Seq<char>, c: char)
    ensures
        escaped(Seq::<char>::empty()) == Seq::<char>::empty(),
        c == '"' || c == '\\' ==> escaped(text.push(c)) == escaped(text) + seq!['\\', c],
        c != '"' && c != '\\' ==> escaped(text.push(c)) == escaped(text) + seq![c],
{
    assert(text.push(c).drop_last() =~= text);
}

} // verus!
