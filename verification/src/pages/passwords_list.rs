//! The passwords pages: the vault's unlock (or create) form, and the list
//! of saved logins with a form to add one, the password generator's last
//! result and the origins never to offer saving for.

use vstd::prelude::*;
use crate::pages::{
    body_open, body_open_html, html_escape, html_escaped, url_encoded_minimal,
    urlencoding_minimal, PageTheme, LIST_NAV_SCRIPT,
};
use crate::text::{push_all, push_str, string_of};
use crate::url_match::string_seq_views;
use crate::vault::{entry_views, EntryView, VaultEntry};

verus! {

/// The error line above the unlock form.
pub open spec fn error_html(e: Seq<char>, t: PageTheme) -> Seq<char> {
    "<p style=\"color:#f7768e;margin:0 0 12px\">"@
        + html_escaped(e)
        + "</p>"@
}

/// The confirmation field of the create form.
pub open spec fn confirm_html(t: PageTheme) -> Seq<char> {
    "<label style=\"display:block;margin:10px 0 4px;opacity:0.8\">Confirm</label><input name=\"confirm\" type=\"password\" required autocomplete=\"new-password\" style=\"width:100%;box-sizing:border-box;padding:10px 12px;border-radius:8px;border:1px solid "@
        + t.help_card_border@
        + ";background:"@
        + t.help_card_bg@
        + ";color:"@
        + t.help_heading@
        + ";font-size:15px\">"@
}

/// The unlock form (or, with `create`, the form that makes a new vault),
/// with `error` above it where there is one.
pub open spec fn unlock_page(t: PageTheme, create: bool, error: Option<Seq<char>>) -> Seq<char> {
    let err = match error {
        Some(e) => error_html(e, t),
        None => Seq::empty(),
    };
    "data:text/html;charset=utf-8,"@
        + body_open_html(t, ""@)
        + "<h1 style=\"margin:0 0 8px;color:"@
        + t.help_heading@
        + ";font-size:20px\">"@
        + (if create { "Create password vault"@ } else { "Unlock password vault"@ })
        + "</h1><p style=\"opacity:0.7;margin:0 0 12px;font-size:13px\">Local encrypted vault (AES-GCM). Unlocks for this session only.</p>"@
        + err
        + "<form onsubmit=\"event.preventDefault();var p=this.password.value;var c=this.confirm?this.confirm.value:'';location='password://unlock?create="@
        + (if create { "1"@ } else { "0"@ })
        + "&password='+encodeURIComponent(p)+(c?'&confirm='+encodeURIComponent(c):'');\"><label style=\"display:block;margin:0 0 4px;opacity:0.8\">Master password</label><input name=\"password\" type=\"password\" required autofocus autocomplete=\"current-password\" style=\"width:100%;box-sizing:border-box;padding:10px 12px;border-radius:8px;border:1px solid "@
        + t.help_card_border@
        + ";background:"@
        + t.help_card_bg@
        + ";color:"@
        + t.help_heading@
        + ";font-size:15px\">"@
        + (if create { confirm_html(t) } else { Seq::empty() })
        + "<button type=\"submit\" style=\"margin-top:14px;padding:10px 16px;border:none;border-radius:8px;background:"@
        + t.help_key_bg@
        + ";color:"@
        + t.help_key_fg@
        + ";font-weight:600;cursor:pointer\">"@
        + (if create { "Create vault"@ } else { "Unlock"@ })
        + "</button></form></body>"@
}

fn error_line(e: &str, t: &PageTheme) -> (r: String)
    ensures
        r@ == error_html(e@, *t),
{
    let msg = html_escape(e);
    let mut out: Vec<char> = Vec::new();
    push_str(&mut out, "<p style=\"color:#f7768e;margin:0 0 12px\">");
    push_str(&mut out, msg.as_str());
    push_str(&mut out, "</p>");
    string_of(out.as_slice())
}

fn confirm_field(t: &PageTheme) -> (r: String)
    ensures
        r@ == confirm_html(*t),
{
    let mut out: Vec<char> = Vec::new();
    push_str(&mut out, "<label style=\"display:block;margin:10px 0 4px;opacity:0.8\">Confirm</label><input name=\"confirm\" type=\"password\" required autocomplete=\"new-password\" style=\"width:100%;box-sizing:border-box;padding:10px 12px;border-radius:8px;border:1px solid ");
    push_str(&mut out, t.help_card_border);
    push_str(&mut out, ";background:");
    push_str(&mut out, t.help_card_bg);
    push_str(&mut out, ";color:");
    push_str(&mut out, t.help_heading);
    push_str(&mut out, ";font-size:15px\">");
    string_of(out.as_slice())
}

/// Builds the unlock (or create) page's `data:` URL.
pub fn unlock_url(theme: &PageTheme, create: bool, error: Option<&str>) -> (r: String)
    ensures
        r@ == unlock_page(*theme, create, match error {
            Some(e) => Some(e@),
            None => None,
        }),
{
    let t = theme;
    let err = match error {
        Some(e) => error_line(e, t),
        None => String::new(),
    };
    let confirm = if create {
        confirm_field(t)
    } else {
        String::new()
    };
    let mut out: Vec<char> = Vec::new();
    push_str(&mut out, "data:text/html;charset=utf-8,");
    push_str(&mut out, body_open(t, "").as_str());
    push_str(&mut out, "<h1 style=\"margin:0 0 8px;color:");
    push_str(&mut out, t.help_heading);
    push_str(&mut out, ";font-size:20px\">");
    push_str(&mut out, if create { "Create password vault" } else { "Unlock password vault" });
    push_str(&mut out, "</h1><p style=\"opacity:0.7;margin:0 0 12px;font-size:13px\">Local encrypted vault (AES-GCM). Unlocks for this session only.</p>");
    push_str(&mut out, err.as_str());
    push_str(&mut out, "<form onsubmit=\"event.preventDefault();var p=this.password.value;var c=this.confirm?this.confirm.value:'';location='password://unlock?create=");
    push_str(&mut out, if create { "1" } else { "0" });
    push_str(&mut out, "&password='+encodeURIComponent(p)+(c?'&confirm='+encodeURIComponent(c):'');\"><label style=\"display:block;margin:0 0 4px;opacity:0.8\">Master password</label><input name=\"password\" type=\"password\" required autofocus autocomplete=\"current-password\" style=\"width:100%;box-sizing:border-box;padding:10px 12px;border-radius:8px;border:1px solid ");
    push_str(&mut out, t.help_card_border);
    push_str(&mut out, ";background:");
    push_str(&mut out, t.help_card_bg);
    push_str(&mut out, ";color:");
    push_str(&mut out, t.help_heading);
    push_str(&mut out, ";font-size:15px\">");
    push_str(&mut out, confirm.as_str());
    push_str(&mut out, "<button type=\"submit\" style=\"margin-top:14px;padding:10px 16px;border:none;border-radius:8px;background:");
    push_str(&mut out, t.help_key_bg);
    push_str(&mut out, ";color:");
    push_str(&mut out, t.help_key_fg);
    push_str(&mut out, ";font-weight:600;cursor:pointer\">");
    push_str(&mut out, if create { "Create vault" } else { "Unlock" });
    push_str(&mut out, "</button></form></body>");
    string_of(out.as_slice())
}

/// What the list says when the vault holds no login.
pub open spec fn no_entries_text() -> Seq<char> {
    "<p style=\"opacity:0.7\">No saved logins yet. They appear after you accept a save prompt on a site, or add one below.</p>"@
}

/// A saved login's row.
pub open spec fn entry_row_html(e: EntryView, t: PageTheme) -> Seq<char> {
    "<div class=\"list-row\" data-open=\"password://fill?id="@
        + html_escaped(e.id)
        + "\" style=\"padding:10px 14px;background:"@
        + t.help_card_bg@
        + ";border:1px solid "@
        + t.help_card_border@
        + ";border-radius:8px;display:flex;flex-direction:column;gap:4px\"><div style=\"display:flex;gap:8px;align-items:center\"><span style=\"flex:1;font-weight:600;color:"@
        + t.help_heading@
        + "\">"@
        + html_escaped(e.username)
        + "</span><button type=\"button\" onclick=\"location='password://fill?id="@
        + html_escaped(e.id)
        + "'\" style=\"padding:4px 10px;border-radius:6px;border:1px solid "@
        + t.help_card_border@
        + ";background:"@
        + t.help_key_bg@
        + ";color:"@
        + t.help_key_fg@
        + ";cursor:pointer;font-size:12px\">Fill</button><button type=\"button\" onclick=\"location='password://delete?id="@
        + html_escaped(e.id)
        + "'\" style=\"padding:4px 10px;border-radius:6px;border:1px solid "@
        + t.help_card_border@
        + ";background:transparent;color:"@
        + t.help_heading@
        + ";cursor:pointer;font-size:12px\">Delete</button></div><div style=\"font-size:12px;opacity:0.65;color:"@
        + t.help_heading@
        + ";word-break:break-all\">"@
        + html_escaped(e.origin)
        + "</div></div>"@
}

/// A never-save origin's row.
pub open spec fn never_row_html(o: Seq<char>, t: PageTheme) -> Seq<char> {
    "<div style=\"display:flex;gap:8px;align-items:center;padding:6px 0\"><span style=\"flex:1;font-size:13px;word-break:break-all\">"@
        + html_escaped(o)
        + "</span><button type=\"button\" onclick=\"location='password://remove-never?origin="@
        + html_escaped(o)
        + "'\" style=\"font-size:12px;cursor:pointer\">Remove</button></div>"@
}

/// The generator's last password with its copy button.
pub open spec fn generated_html(g: Seq<char>, t: PageTheme) -> Seq<char> {
    "<p style=\"margin:8px 0;padding:8px 10px;background:"@
        + t.help_card_bg@
        + ";border-radius:6px;font-family:monospace;word-break:break-all\">"@
        + html_escaped(g)
        + "</p><button type=\"button\" onclick=\"location='clipboard://copy?text="@
        + url_encoded_minimal(g)
        + "'\" style=\"padding:6px 12px;border-radius:6px;border:none;background:"@
        + t.help_key_bg@
        + ";color:"@
        + t.help_key_fg@
        + ";cursor:pointer\">Copy</button>"@
}

/// The rows of the first `n` entries.
pub open spec fn entry_rows_upto(v: Seq<EntryView>, t: PageTheme, n: nat) -> Seq<char>
    decreases n,
{
    if n == 0 {
        Seq::empty()
    } else {
        entry_rows_upto(v, t, (n - 1) as nat) + entry_row_html(v[n - 1], t)
    }
}

/// The rows of the first `n` never-save origins.
pub open spec fn never_rows_upto(v: Seq<Seq<char>>, t: PageTheme, n: nat) -> Seq<char>
    decreases n,
{
    if n == 0 {
        Seq::empty()
    } else {
        never_rows_upto(v, t, (n - 1) as nat) + never_row_html(v[n - 1], t)
    }
}

/// The page around its pieces.
pub open spec fn passwords_page_of(t: PageTheme, rows: Seq<char>, gen_out: Seq<char>, never_rows: Seq<char>) -> Seq<char> {
    "data:text/html;charset=utf-8,"@
        + body_open_html(t, ""@)
        + "<h1 style=\"margin:0 0 8px;color:"@
        + t.help_heading@
        + ";font-size:20px\">Passwords</h1><p style=\"opacity:0.7;font-size:13px;margin:0 0 14px\">Local vault · Fill active page, or save from site prompts</p><h2 style=\"font-size:13px;text-transform:uppercase;opacity:0.8;color:"@
        + t.help_heading@
        + "\">Saved</h2><div style=\"display:flex;flex-direction:column;gap:8px;margin-bottom:18px\">"@
        + rows
        + "</div><h2 style=\"font-size:13px;text-transform:uppercase;opacity:0.8;color:"@
        + t.help_heading@
        + "\">Add entry</h2><form onsubmit=\"event.preventDefault();location='password://upsert?origin='+encodeURIComponent(this.origin.value)+'&username='+encodeURIComponent(this.username.value)+'&password='+encodeURIComponent(this.password.value)+'&email='+encodeURIComponent(this.email.value)+'&given_name='+encodeURIComponent(this.given_name.value)+'&family_name='+encodeURIComponent(this.family_name.value);\" style=\"display:flex;flex-direction:column;gap:8px;margin-bottom:18px\"><input name=\"origin\" required placeholder=\"https://example.com\" style=\"padding:8px 10px;border-radius:6px;border:1px solid "@
        + t.help_card_border@
        + ";background:"@
        + t.help_card_bg@
        + ";color:"@
        + t.help_heading@
        + "\"><input name=\"username\" placeholder=\"Username\" style=\"padding:8px 10px;border-radius:6px;border:1px solid "@
        + t.help_card_border@
        + ";background:"@
        + t.help_card_bg@
        + ";color:"@
        + t.help_heading@
        + "\"><input name=\"password\" type=\"password\" required placeholder=\"Password\" style=\"padding:8px 10px;border-radius:6px;border:1px solid "@
        + t.help_card_border@
        + ";background:"@
        + t.help_card_bg@
        + ";color:"@
        + t.help_heading@
        + "\"><input name=\"email\" placeholder=\"Email (optional)\" style=\"padding:8px 10px;border-radius:6px;border:1px solid "@
        + t.help_card_border@
        + ";background:"@
        + t.help_card_bg@
        + ";color:"@
        + t.help_heading@
        + "\"><input name=\"given_name\" placeholder=\"Given name (optional)\" style=\"padding:8px 10px;border-radius:6px;border:1px solid "@
        + t.help_card_border@
        + ";background:"@
        + t.help_card_bg@
        + ";color:"@
        + t.help_heading@
        + "\"><input name=\"family_name\" placeholder=\"Family name (optional)\" style=\"padding:8px 10px;border-radius:6px;border:1px solid "@
        + t.help_card_border@
        + ";background:"@
        + t.help_card_bg@
        + ";color:"@
        + t.help_heading@
        + "\"><button type=\"submit\" style=\"align-self:flex-start;padding:8px 14px;border:none;border-radius:6px;background:"@
        + t.help_key_bg@
        + ";color:"@
        + t.help_key_fg@
        + ";font-weight:600;cursor:pointer\">Save</button></form><h2 style=\"font-size:13px;text-transform:uppercase;opacity:0.8;color:"@
        + t.help_heading@
        + "\">Generator</h2><div style=\"margin-bottom:18px\"><button type=\"button\" onclick=\"location='password://generate?length=20&symbols=1'\" style=\"padding:8px 14px;border:none;border-radius:6px;background:"@
        + t.help_key_bg@
        + ";color:"@
        + t.help_key_fg@
        + ";font-weight:600;cursor:pointer\">Generate</button>"@
        + gen_out
        + "</div><h2 style=\"font-size:13px;text-transform:uppercase;opacity:0.8;color:"@
        + t.help_heading@
        + "\">Never save</h2>"@
        + never_rows
        + LIST_NAV_SCRIPT@
        + "</body>"@
}

/// The whole list page as a `data:` URL.
pub open spec fn passwords_page(
    t: PageTheme,
    entries: Seq<EntryView>,
    never_save: Seq<Seq<char>>,
    generated: Option<Seq<char>>,
) -> Seq<char> {
    let gen_out = match generated {
        Some(g) => generated_html(g, t),
        None => Seq::empty(),
    };
    passwords_page_of(t, saved_rows(entries, t), gen_out, never_rows(never_save, t))
}

fn entry_row(e: &VaultEntry, t: &PageTheme) -> (r: String)
    ensures
        r@ == entry_row_html(e@, *t),
{
    let id = html_escape(e.id.as_str());
    let user = html_escape(e.username.as_str());
    let origin = html_escape(e.origin.as_str());
    let mut out: Vec<char> = Vec::new();
    push_str(&mut out, "<div class=\"list-row\" data-open=\"password://fill?id=");
    push_str(&mut out, id.as_str());
    push_str(&mut out, "\" style=\"padding:10px 14px;background:");
    push_str(&mut out, t.help_card_bg);
    push_str(&mut out, ";border:1px solid ");
    push_str(&mut out, t.help_card_border);
    push_str(&mut out, ";border-radius:8px;display:flex;flex-direction:column;gap:4px\"><div style=\"display:flex;gap:8px;align-items:center\"><span style=\"flex:1;font-weight:600;color:");
    push_str(&mut out, t.help_heading);
    push_str(&mut out, "\">");
    push_str(&mut out, user.as_str());
    push_str(&mut out, "</span><button type=\"button\" onclick=\"location='password://fill?id=");
    push_str(&mut out, id.as_str());
    push_str(&mut out, "'\" style=\"padding:4px 10px;border-radius:6px;border:1px solid ");
    push_str(&mut out, t.help_card_border);
    push_str(&mut out, ";background:");
    push_str(&mut out, t.help_key_bg);
    push_str(&mut out, ";color:");
    push_str(&mut out, t.help_key_fg);
    push_str(&mut out, ";cursor:pointer;font-size:12px\">Fill</button><button type=\"button\" onclick=\"location='password://delete?id=");
    push_str(&mut out, id.as_str());
    push_str(&mut out, "'\" style=\"padding:4px 10px;border-radius:6px;border:1px solid ");
    push_str(&mut out, t.help_card_border);
    push_str(&mut out, ";background:transparent;color:");
    push_str(&mut out, t.help_heading);
    push_str(&mut out, ";cursor:pointer;font-size:12px\">Delete</button></div><div style=\"font-size:12px;opacity:0.65;color:");
    push_str(&mut out, t.help_heading);
    push_str(&mut out, ";word-break:break-all\">");
    push_str(&mut out, origin.as_str());
    push_str(&mut out, "</div></div>");
    string_of(out.as_slice())
}

fn never_row(o: &str, t: &PageTheme) -> (r: String)
    ensures
        r@ == never_row_html(o@, *t),
{
    let esc = html_escape(o);
    let mut out: Vec<char> = Vec::new();
    push_str(&mut out, "<div style=\"display:flex;gap:8px;align-items:center;padding:6px 0\"><span style=\"flex:1;font-size:13px;word-break:break-all\">");
    push_str(&mut out, esc.as_str());
    push_str(&mut out, "</span><button type=\"button\" onclick=\"location='password://remove-never?origin=");
    push_str(&mut out, esc.as_str());
    push_str(&mut out, "'\" style=\"font-size:12px;cursor:pointer\">Remove</button></div>");
    string_of(out.as_slice())
}

fn generated_block(g: &str, t: &PageTheme) -> (r: String)
    ensures
        r@ == generated_html(g@, *t),
{
    let g_html = html_escape(g);
    let enc = urlencoding_minimal(g);
    let mut out: Vec<char> = Vec::new();
    push_str(&mut out, "<p style=\"margin:8px 0;padding:8px 10px;background:");
    push_str(&mut out, t.help_card_bg);
    push_str(&mut out, ";border-radius:6px;font-family:monospace;word-break:break-all\">");
    push_str(&mut out, g_html.as_str());
    push_str(&mut out, "</p><button type=\"button\" onclick=\"location='clipboard://copy?text=");
    push_str(&mut out, enc.as_str());
    push_str(&mut out, "'\" style=\"padding:6px 12px;border-radius:6px;border:none;background:");
    push_str(&mut out, t.help_key_bg);
    push_str(&mut out, ";color:");
    push_str(&mut out, t.help_key_fg);
    push_str(&mut out, ";cursor:pointer\">Copy</button>");
    string_of(out.as_slice())
}

fn assemble(t: &PageTheme, rows: &[char], gen_out: &str, never_rows: &[char]) -> (r: String)
    ensures
        r@ == passwords_page_of(*t, rows@, gen_out@, never_rows@),
{
    let mut out: Vec<char> = Vec::new();
    push_str(&mut out, "data:text/html;charset=utf-8,");
    push_str(&mut out, body_open(t, "").as_str());
    push_str(&mut out, "<h1 style=\"margin:0 0 8px;color:");
    push_str(&mut out, t.help_heading);
    push_str(&mut out, ";font-size:20px\">Passwords</h1><p style=\"opacity:0.7;font-size:13px;margin:0 0 14px\">Local vault · Fill active page, or save from site prompts</p><h2 style=\"font-size:13px;text-transform:uppercase;opacity:0.8;color:");
    push_str(&mut out, t.help_heading);
    push_str(&mut out, "\">Saved</h2><div style=\"display:flex;flex-direction:column;gap:8px;margin-bottom:18px\">");
    push_all(&mut out, rows);
    push_str(&mut out, "</div><h2 style=\"font-size:13px;text-transform:uppercase;opacity:0.8;color:");
    push_str(&mut out, t.help_heading);
    push_str(&mut out, "\">Add entry</h2><form onsubmit=\"event.preventDefault();location='password://upsert?origin='+encodeURIComponent(this.origin.value)+'&username='+encodeURIComponent(this.username.value)+'&password='+encodeURIComponent(this.password.value)+'&email='+encodeURIComponent(this.email.value)+'&given_name='+encodeURIComponent(this.given_name.value)+'&family_name='+encodeURIComponent(this.family_name.value);\" style=\"display:flex;flex-direction:column;gap:8px;margin-bottom:18px\"><input name=\"origin\" required placeholder=\"https://example.com\" style=\"padding:8px 10px;border-radius:6px;border:1px solid ");
    push_str(&mut out, t.help_card_border);
    push_str(&mut out, ";background:");
    push_str(&mut out, t.help_card_bg);
    push_str(&mut out, ";color:");
    push_str(&mut out, t.help_heading);
    push_str(&mut out, "\"><input name=\"username\" placeholder=\"Username\" style=\"padding:8px 10px;border-radius:6px;border:1px solid ");
    push_str(&mut out, t.help_card_border);
    push_str(&mut out, ";background:");
    push_str(&mut out, t.help_card_bg);
    push_str(&mut out, ";color:");
    push_str(&mut out, t.help_heading);
    push_str(&mut out, "\"><input name=\"password\" type=\"password\" required placeholder=\"Password\" style=\"padding:8px 10px;border-radius:6px;border:1px solid ");
    push_str(&mut out, t.help_card_border);
    push_str(&mut out, ";background:");
    push_str(&mut out, t.help_card_bg);
    push_str(&mut out, ";color:");
    push_str(&mut out, t.help_heading);
    push_str(&mut out, "\"><input name=\"email\" placeholder=\"Email (optional)\" style=\"padding:8px 10px;border-radius:6px;border:1px solid ");
    push_str(&mut out, t.help_card_border);
    push_str(&mut out, ";background:");
    push_str(&mut out, t.help_card_bg);
    push_str(&mut out, ";color:");
    push_str(&mut out, t.help_heading);
    push_str(&mut out, "\"><input name=\"given_name\" placeholder=\"Given name (optional)\" style=\"padding:8px 10px;border-radius:6px;border:1px solid ");
    push_str(&mut out, t.help_card_border);
    push_str(&mut out, ";background:");
    push_str(&mut out, t.help_card_bg);
    push_str(&mut out, ";color:");
    push_str(&mut out, t.help_heading);
    push_str(&mut out, "\"><input name=\"family_name\" placeholder=\"Family name (optional)\" style=\"padding:8px 10px;border-radius:6px;border:1px solid ");
    push_str(&mut out, t.help_card_border);
    push_str(&mut out, ";background:");
    push_str(&mut out, t.help_card_bg);
    push_str(&mut out, ";color:");
    push_str(&mut out, t.help_heading);
    push_str(&mut out, "\"><button type=\"submit\" style=\"align-self:flex-start;padding:8px 14px;border:none;border-radius:6px;background:");
    push_str(&mut out, t.help_key_bg);
    push_str(&mut out, ";color:");
    push_str(&mut out, t.help_key_fg);
    push_str(&mut out, ";font-weight:600;cursor:pointer\">Save</button></form><h2 style=\"font-size:13px;text-transform:uppercase;opacity:0.8;color:");
    push_str(&mut out, t.help_heading);
    push_str(&mut out, "\">Generator</h2><div style=\"margin-bottom:18px\"><button type=\"button\" onclick=\"location='password://generate?length=20&symbols=1'\" style=\"padding:8px 14px;border:none;border-radius:6px;background:");
    push_str(&mut out, t.help_key_bg);
    push_str(&mut out, ";color:");
    push_str(&mut out, t.help_key_fg);
    push_str(&mut out, ";font-weight:600;cursor:pointer\">Generate</button>");
    push_str(&mut out, gen_out);
    push_str(&mut out, "</div><h2 style=\"font-size:13px;text-transform:uppercase;opacity:0.8;color:");
    push_str(&mut out, t.help_heading);
    push_str(&mut out, "\">Never save</h2>");
    push_all(&mut out, never_rows);
    push_str(&mut out, LIST_NAV_SCRIPT);
    push_str(&mut out, "</body>");
    string_of(out.as_slice())
}

/// All saved logins' rows, or the placeholder for an empty vault.
pub open spec fn saved_rows(entries: Seq<EntryView>, t: PageTheme) -> Seq<char> {
    if entries.len() == 0 {
        no_entries_text()
    } else {
        entry_rows_upto(entries, t, entries.len())
    }
}

/// All never-save rows, or `None`.
pub open spec fn never_rows(never_save: Seq<Seq<char>>, t: PageTheme) -> Seq<char> {
    if never_save.len() == 0 {
        "<p style=\"opacity:0.65;font-size:13px\">None</p>"@
    } else {
        never_rows_upto(never_save, t, never_save.len())
    }
}

fn saved_rows_of(entries: &[VaultEntry], t: &PageTheme) -> (r: Vec<char>)
    ensures
        r@ == saved_rows(entry_views(entries@), *t),
{
    let ghost ev = entry_views(entries@);
    let mut rows: Vec<char> = Vec::new();
    if entries.len() == 0 {
        push_str(&mut rows, "<p style=\"opacity:0.7\">No saved logins yet. They appear after you accept a save prompt on a site, or add one below.</p>");
    }
    let mut i: usize = 0;
    while i < entries.len()
        invariant
            i <= entries.len(),
            ev == entry_views(entries@),
            entries.len() > 0 ==> rows@ == entry_rows_upto(ev, *t, i as nat),
            entries.len() == 0 ==> rows@ == no_entries_text(),
        decreases entries.len() - i,
    {
        let row = entry_row(&entries[i], t);
        push_str(&mut rows, row.as_str());
        i = i + 1;
    }
    rows
}

fn never_rows_of(never_save: &[String], t: &PageTheme) -> (r: Vec<char>)
    ensures
        r@ == never_rows(string_seq_views(never_save@), *t),
{
    let ghost nv = string_seq_views(never_save@);
    let mut rows: Vec<char> = Vec::new();
    if never_save.len() == 0 {
        push_str(&mut rows, "<p style=\"opacity:0.65;font-size:13px\">None</p>");
    }
    let mut i: usize = 0;
    while i < never_save.len()
        invariant
            i <= never_save.len(),
            nv == string_seq_views(never_save@),
            never_save.len() > 0 ==> rows@ == never_rows_upto(nv, *t, i as nat),
            never_save.len() == 0 ==> rows@ == "<p style=\"opacity:0.65;font-size:13px\">None</p>"@,
        decreases never_save.len() - i,
    {
        let row = never_row(never_save[i].as_str(), t);
        push_str(&mut rows, row.as_str());
        i = i + 1;
    }
    rows
}

/// Builds the passwords list's `data:` URL.
pub fn page_url(
    theme: &PageTheme,
    entries: &[VaultEntry],
    never_save: &[String],
    generated: Option<&str>,
) -> (r: String)
    ensures
        r@ == passwords_page(*theme, entry_views(entries@), string_seq_views(never_save@), match generated {
            Some(g) => Some(g@),
            None => None,
        }),
{
    let t = theme;
    let rows = saved_rows_of(entries, t);
    let never = never_rows_of(never_save, t);
    let gen_out = match generated {
        Some(g) => generated_block(g, t),
        None => String::new(),
    };
    assemble(t, rows.as_slice(), gen_out.as_str(), never.as_slice())
}

} // verus!
