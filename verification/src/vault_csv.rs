//! Importing login CSV exports (Chrome `name,url,username,password`, or
//! Bitwarden `login_uri,login_username,login_password`) into the vault.
//! The `csv` crate reads the table; which columns count, which rows are
//! kept and how they merge into the vault is decided here.

use vstd::prelude::*;
use crate::text::{
    chars_eq, chars_of, decimal, push_all, push_decimal, push_decimal_u128, push_str, split_any, split_any_chars,
    string_of, to_lower, to_lower_chars, trim, trim_chars, views,
};
use crate::vault::{clone_entry, entry_views, origin_of, EntryView, VaultData, VaultEntry};
use crate::text::{split_once_seq, split_once_str_chars};

verus! {

/// Counts of an import.
#[derive(Clone, Copy, PartialEq, Eq)]
pub struct ImportStats {
    pub added: usize,
    pub updated: usize,
    pub skipped: usize,
}

impl ImportStats {
    /// Whether the import added or updated anything, so that the vault
    /// needs saving.
    pub fn changed(&self) -> (r: bool)
        ensures
            r == (self.added > 0 || self.updated > 0),
    {
        self.added > 0 || self.updated > 0
    }

    /// `{added} added, {updated} updated, {skipped} skipped`.
    pub fn to_text(&self) -> (r: String)
        ensures
            r@ == decimal(self.added as nat) + " added, "@ + decimal(self.updated as nat)
                + " updated, "@ + decimal(self.skipped as nat) + " skipped"@,
    {
        let mut out: Vec<char> = Vec::new();
        push_decimal(&mut out, self.added);
        push_str(&mut out, " added, ");
        push_decimal(&mut out, self.updated);
        push_str(&mut out, " updated, ");
        push_decimal(&mut out, self.skipped);
        push_str(&mut out, " skipped");
        string_of(out.as_slice())
    }
}

/// The header row the `csv` crate reads from `text` (flexible rows,
/// headers trimmed), or its error message.
pub uninterp spec fn csv_header_row(text: Seq<char>) -> Result<Seq<Seq<char>>, Seq<char>>;

/// The data rows the `csv` crate reads from `text`, each fields or an
/// error message.
pub uninterp spec fn csv_data_rows(text: Seq<char>) -> Seq<Result<Seq<Seq<char>>, Seq<char>>>;

pub open spec fn row_views(v: Seq<Result<Vec<String>, String>>) -> Seq<
    Result<Seq<Seq<char>>, Seq<char>>,
> {
    v.map_values(
        |r: Result<Vec<String>, String>|
            match r {
                Ok(fields) => Ok(crate::vault::string_views(fields@)),
                Err(e) => Err(e@),
            },
    )
}

/// `csv::Reader::headers` (flexible, headers trimmed) as strings.
#[verifier::external_body]
fn read_csv_headers(text: &str) -> (r: Result<Vec<String>, String>)
    ensures
        match r {
            Ok(h) => csv_header_row(text@) == Ok::<_, Seq<char>>(crate::vault::string_views(h@)),
            Err(e) => csv_header_row(text@) == Err::<Seq<Seq<char>>, _>(e@),
        },
{
    let mut reader = csv::ReaderBuilder::new().flexible(true).trim(csv::Trim::Headers).from_reader(
        text.as_bytes(),
    );
    match reader.headers() {
        Ok(h) => Ok(h.iter().map(|f| f.to_string()).collect()),
        Err(e) => Err(e.to_string()),
    }
}

/// `csv::Reader::records` (flexible, headers trimmed) as strings.
#[verifier::external_body]
fn read_csv_records(text: &str) -> (r: Vec<Result<Vec<String>, String>>)
    ensures
        row_views(r@) == csv_data_rows(text@),
{
    let mut reader = csv::ReaderBuilder::new().flexible(true).trim(csv::Trim::Headers).from_reader(
        text.as_bytes(),
    );
    reader.records().map(|rec| match rec {
        Ok(rec) => Ok(rec.iter().map(|f| f.to_string()).collect()),
        Err(e) => Err(e.to_string()),
    }).collect()
}

/// Index of the last header that, trimmed and lower-cased, is `name`.
pub open spec fn col(headers: Seq<Seq<char>>, name: Seq<char>) -> Option<int>
    decreases headers.len(),
{
    if headers.len() == 0 {
        None
    } else if to_lower(trim(headers.last())) == name {
        Some(headers.len() - 1)
    } else {
        col(headers.drop_last(), name)
    }
}

/// A field of a row, empty when the row is short.
pub open spec fn cell(row: Seq<Seq<char>>, i: int) -> Seq<char> {
    if 0 <= i < row.len() {
        row[i]
    } else {
        Seq::empty()
    }
}

/// Which columns hold url, username, password, notes and type.
pub struct Columns {
    pub url: usize,
    pub user: usize,
    pub pass: usize,
    pub notes: Option<usize>,
    pub kind: Option<usize>,
}

pub open spec fn opt_usize(o: Option<int>) -> Option<usize> {
    match o {
        Some(i) => Some(i as usize),
        None => None,
    }
}

/// The columns of a Chrome export, else of a Bitwarden export.
pub open spec fn columns_of(h: Seq<Seq<char>>) -> Option<Columns> {
    if col(h, "url"@) is Some && col(h, "username"@) is Some && col(h, "password"@) is Some {
        Some(
            Columns {
                url: col(h, "url"@)->0 as usize,
                user: col(h, "username"@)->0 as usize,
                pass: col(h, "password"@)->0 as usize,
                notes: if col(h, "note"@) is Some {
                    opt_usize(col(h, "note"@))
                } else {
                    opt_usize(col(h, "notes"@))
                },
                kind: None,
            },
        )
    } else if col(h, "login_uri"@) is Some && col(h, "login_username"@) is Some && col(
        h,
        "login_password"@,
    ) is Some {
        Some(
            Columns {
                url: col(h, "login_uri"@)->0 as usize,
                user: col(h, "login_username"@)->0 as usize,
                pass: col(h, "login_password"@)->0 as usize,
                notes: opt_usize(col(h, "notes"@)),
                kind: opt_usize(col(h, "type"@)),
            },
        )
    } else {
        None
    }
}

/// First non-empty trimmed piece, splitting at newline, comma or space.
pub open spec fn first_nonempty(pieces: Seq<Seq<char>>) -> Option<Seq<char>>
    decreases pieces.len(),
{
    if pieces.len() == 0 {
        None
    } else {
        match first_nonempty(pieces.drop_last()) {
            Some(p) => Some(p),
            None => if trim(pieces.last()).len() > 0 {
                Some(trim(pieces.last()))
            } else {
                None
            },
        }
    }
}

pub open spec fn url_separators() -> Seq<char> {
    seq!['\n', ',', ' ']
}

/// The first URL of a (Bitwarden multi-URI) url field.
pub open spec fn first_url(url: Seq<char>) -> Seq<char> {
    match first_nonempty(split_any(url, url_separators())) {
        Some(u) => u,
        None => url,
    }
}

/// The parts of an imported row: origin, username, password, notes.
pub struct LoginRow {
    pub origin: Seq<char>,
    pub username: Seq<char>,
    pub password: Seq<char>,
    pub notes: Option<Seq<char>>,
}

/// The login a row gives, `None` for a skipped row (non-login type, or
/// empty url or password).
pub open spec fn row_login(row: Seq<Seq<char>>, c: Columns) -> Option<LoginRow> {
    let ty = match c.kind {
        Some(k) => trim(cell(row, k as int)),
        None => Seq::empty(),
    };
    let url = trim(cell(row, c.url as int));
    let password = trim(cell(row, c.pass as int));
    if c.kind is Some && ty.len() > 0 && to_lower(ty) != to_lower("login"@) {
        None
    } else if url.len() == 0 || password.len() == 0 {
        None
    } else {
        Some(
            LoginRow {
                origin: origin_of(first_url(url)),
                username: trim(cell(row, c.user as int)),
                password,
                notes: match c.notes {
                    Some(n) => if trim(cell(row, n as int)).len() > 0 {
                        Some(trim(cell(row, n as int)))
                    } else {
                        None
                    },
                    None => None,
                },
            },
        )
    }
}

/// The logins of all rows, or the message of the first bad row
/// (`CSV row {n}: ...`, counting the header as row 1).
pub open spec fn rows_logins(rows: Seq<Result<Seq<Seq<char>>, Seq<char>>>, c: Columns) -> Result<
    Seq<LoginRow>,
    Seq<char>,
>
    decreases rows.len(),
{
    if rows.len() == 0 {
        Ok(Seq::empty())
    } else {
        match rows_logins(rows.drop_last(), c) {
            Err(e) => Err(e),
            Ok(prev) => match rows.last() {
                Err(e) => Err(
                    "CSV row "@ + decimal((rows.len() + 1) as nat) + ": "@ + e,
                ),
                Ok(row) => match row_login(row, c) {
                    Some(l) => Ok(prev.push(l)),
                    None => Ok(prev),
                },
            },
        }
    }
}

/// What `parse_login_csv` returns for a header row and data rows.
pub open spec fn logins_from_table(
    headers: Result<Seq<Seq<char>>, Seq<char>>,
    rows: Seq<Result<Seq<Seq<char>>, Seq<char>>>,
) -> Result<Seq<LoginRow>, Seq<char>> {
    match headers {
        Err(e) => Err("CSV headers: "@ + e),
        Ok(h) => match columns_of(h) {
            None => Err(
                "unrecognized CSV — need Chrome (url,username,password) or Bitwarden (login_uri,…)"@,
            ),
            Some(c) => rows_logins(rows, c),
        },
    }
}

/// The login parts of a vault entry, as an import produces them.
pub open spec fn row_of_entry(e: VaultEntry) -> LoginRow {
    LoginRow {
        origin: e.origin@,
        username: e.username@,
        password: e.password@,
        notes: match e.notes {
            Some(n) => Some(n@),
            None => None,
        },
    }
}

/// An entry as the CSV import builds it: no id, no autofill fields.
pub open spec fn is_plain_import(e: VaultEntry, now: i64) -> bool {
    &&& e.id@.len() == 0
    &&& e.email is None && e.given_name is None && e.family_name is None
    &&& e.address_line1 is None && e.city is None && e.postal_code is None
    &&& e.country is None
    &&& e.updated_at == now
}

fn col_of(headers: &Vec<Vec<char>>, name: &str) -> (r: Option<usize>)
    ensures
        opt_usize(col(views(headers@), name@)) == r,
        match r {
            Some(i) => col(views(headers@), name@) == Some(i as int),
            None => col(views(headers@), name@) is None,
        },
{
    let want = chars_of(name);
    let mut found: Option<usize> = None;
    let mut i: usize = 0;
    while i < headers.len()
        invariant
            i <= headers@.len(),
            want@ == name@,
            match found {
                Some(k) => col(views(headers@).take(i as int), name@) == Some(k as int),
                None => col(views(headers@).take(i as int), name@) is None,
            },
        decreases headers@.len() - i,
    {
        let ghost hv = views(headers@);
        assert(hv.take(i + 1).drop_last() == hv.take(i as int));
        assert(hv.take(i + 1).last() == headers@[i as int]@);
        let t = trim_chars(headers[i].as_slice());
        let l = to_lower_chars(t.as_slice());
        if chars_eq(l.as_slice(), want.as_slice()) {
            found = Some(i);
        }
        i = i + 1;
    }
    assert(views(headers@).take(headers@.len() as int) == views(headers@));
    found
}

fn columns_exec(headers: &Vec<Vec<char>>) -> (r: Option<Columns>)
    ensures
        r == columns_of(views(headers@)),
{
    let url = col_of(headers, "url");
    let user = col_of(headers, "username");
    let pass = col_of(headers, "password");
    if url.is_some() && user.is_some() && pass.is_some() {
        let note = col_of(headers, "note");
        let notes = if note.is_some() {
            note
        } else {
            col_of(headers, "notes")
        };
        return Some(
            Columns { url: url.unwrap(), user: user.unwrap(), pass: pass.unwrap(), notes, kind: None },
        );
    }
    let url = col_of(headers, "login_uri");
    let user = col_of(headers, "login_username");
    let pass = col_of(headers, "login_password");
    if url.is_some() && user.is_some() && pass.is_some() {
        let notes = col_of(headers, "notes");
        let kind = col_of(headers, "type");
        return Some(
            Columns { url: url.unwrap(), user: user.unwrap(), pass: pass.unwrap(), notes, kind },
        );
    }
    None
}

fn cell_exec(row: &Vec<Vec<char>>, i: usize) -> (r: Vec<char>)
    ensures
        r@ == cell(views(row@), i as int),
{
    if i < row.len() {
        crate::text::slice_copy(row[i].as_slice(), 0, row[i].len())
    } else {
        Vec::new()
    }
}

fn first_url_exec(url: &[char]) -> (r: Vec<char>)
    ensures
        r@ == first_url(url@),
{
    let mut seps: Vec<char> = Vec::new();
    seps.push('\n');
    seps.push(',');
    seps.push(' ');
    assert(seps@ == url_separators());
    let pieces = split_any_chars(url, seps.as_slice());
    let mut i: usize = 0;
    while i < pieces.len()
        invariant
            i <= pieces@.len(),
            views(pieces@) == split_any(url@, url_separators()),
            first_nonempty(views(pieces@).take(i as int)) is None,
        decreases pieces@.len() - i,
    {
        let ghost pv = views(pieces@);
        assert(pv.take(i + 1).drop_last() == pv.take(i as int));
        assert(pv.take(i + 1).last() == pieces@[i as int]@);
        let t = trim_chars(pieces[i].as_slice());
        if t.len() > 0 {
            assert(t@.len() > 0);
            assert(first_nonempty(pv.take(i + 1)) == Some(t@));
            proof {
                lemma_first_nonempty_prefix(pv, i as int + 1);
            }
            return t;
        }
        i = i + 1;
    }
    assert(views(pieces@).take(pieces@.len() as int) == views(pieces@));
    crate::text::slice_copy(url, 0, url.len())
}

proof fn lemma_first_nonempty_prefix(p: Seq<Seq<char>>, n: int)
    requires
        0 <= n <= p.len(),
        first_nonempty(p.take(n)) is Some,
    ensures
        first_nonempty(p) == first_nonempty(p.take(n)),
    decreases p.len() - n,
{
    if n < p.len() {
        assert(p.take(n + 1).drop_last() == p.take(n));
        lemma_first_nonempty_prefix(p, n + 1);
    } else {
        assert(p.take(n) == p);
    }
}

fn opt_string_of(v: Option<Vec<char>>) -> (r: Option<String>)
    ensures
        match v {
            Some(x) => r matches Some(s) && s@ == x@,
            None => r is None,
        },
{
    match v {
        Some(x) => Some(string_of(x.as_slice())),
        None => None,
    }
}

fn row_entry(row: &Vec<Vec<char>>, c: &Columns, now: i64) -> (r: Option<VaultEntry>)
    ensures
        match row_login(views(row@), *c) {
            Some(l) => r matches Some(e) && row_of_entry(e) == l && is_plain_import(e, now),
            None => r is None,
        },
{
    let login = chars_of("login");
    let login_l = to_lower_chars(login.as_slice());
    if let Some(k) = c.kind {
        let ty = trim_chars(cell_exec(row, k).as_slice());
        if ty.len() > 0 {
            let tl = to_lower_chars(ty.as_slice());
            if !chars_eq(tl.as_slice(), login_l.as_slice()) {
                return None;
            }
        }
    }
    let url = trim_chars(cell_exec(row, c.url).as_slice());
    let username = trim_chars(cell_exec(row, c.user).as_slice());
    let password = trim_chars(cell_exec(row, c.pass).as_slice());
    if url.len() == 0 || password.len() == 0 {
        return None;
    }
    let first = first_url_exec(url.as_slice());
    let origin = crate::vault::normalize_origin(string_of(first.as_slice()).as_str());
    let notes: Option<Vec<char>> = match c.notes {
        Some(n) => {
            let t = trim_chars(cell_exec(row, n).as_slice());
            if t.len() > 0 {
                Some(t)
            } else {
                None
            }
        },
        None => None,
    };
    Some(
        VaultEntry {
            id: String::new(),
            origin,
            username: string_of(username.as_slice()),
            password: string_of(password.as_slice()),
            email: None,
            given_name: None,
            family_name: None,
            address_line1: None,
            city: None,
            postal_code: None,
            country: None,
            notes: opt_string_of(notes),
            updated_at: now,
        },
    )
}

/// The login parts of a list of entries.
pub open spec fn rows_of_entries(v: Seq<VaultEntry>) -> Seq<LoginRow> {
    v.map_values(|e: VaultEntry| row_of_entry(e))
}

fn vec_of_strings(v: &Vec<String>) -> (r: Vec<Vec<char>>)
    ensures
        views(r@) == crate::vault::string_views(v@),
{
    let mut r: Vec<Vec<char>> = Vec::new();
    let mut i: usize = 0;
    while i < v.len()
        invariant
            i <= v@.len(),
            views(r@) == crate::vault::string_views(v@).take(i as int),
        decreases v@.len() - i,
    {
        let ghost before = r@;
        let c = chars_of(v[i].as_str());
        r.push(c);
        assert(views(r@) =~= views(before).push(v@[i as int]@));
        assert(crate::vault::string_views(v@).take(i + 1) =~= crate::vault::string_views(v@).take(
            i as int,
        ).push(v@[i as int]@));
        i = i + 1;
    }
    assert(crate::vault::string_views(v@).take(v@.len() as int) =~= crate::vault::string_views(v@));
    r
}

/// The logins a read CSV table holds (see `logins_from_table`), each
/// stamped `now`.
pub fn login_entries_from_table(
    headers: &Result<Vec<String>, String>,
    rows: &Vec<Result<Vec<String>, String>>,
    now: i64,
) -> (r: Result<Vec<VaultEntry>, String>)
    ensures
        match logins_from_table(
            match headers {
                Ok(h) => Ok::<_, Seq<char>>(crate::vault::string_views(h@)),
                Err(e) => Err(e@),
            },
            row_views(rows@),
        ) {
            Ok(ls) => r matches Ok(es) && rows_of_entries(es@) == ls && forall|k: int|
                0 <= k < es@.len() ==> is_plain_import(#[trigger] es@[k], now),
            Err(m) => r matches Err(s) && s@ == m,
        },
{
    let hs = match headers {
        Ok(h) => vec_of_strings(h),
        Err(e) => {
            let mut m: Vec<char> = Vec::new();
            push_str(&mut m, "CSV headers: ");
            push_str(&mut m, e.as_str());
            return Err(string_of(m.as_slice()));
        },
    };
    let c = match columns_exec(&hs) {
        Some(c) => c,
        None => {
            return Err(
                String::from_str(
                    "unrecognized CSV — need Chrome (url,username,password) or Bitwarden (login_uri,…)",
                ),
            );
        },
    };
    let ghost rv = row_views(rows@);
    let mut out: Vec<VaultEntry> = Vec::new();
    assert(rows_of_entries(out@) =~= Seq::<LoginRow>::empty());
    assert(rv.take(0) =~= Seq::<Result<Seq<Seq<char>>, Seq<char>>>::empty());
    let mut i: usize = 0;
    while i < rows.len()
        invariant
            i <= rows@.len(),
            rv == row_views(rows@),
            headers matches Ok(h) && columns_of(crate::vault::string_views(h@)) == Some(c),
            rows_logins(rv.take(i as int), c) == Ok::<_, Seq<char>>(rows_of_entries(out@)),
            forall|k: int| 0 <= k < out@.len() ==> is_plain_import(#[trigger] out@[k], now),
        decreases rows@.len() - i,
    {
        assert(rv.take(i + 1).drop_last() == rv.take(i as int));
        match &rows[i] {
            Err(e) => {
                let mut m: Vec<char> = Vec::new();
                push_str(&mut m, "CSV row ");
                push_decimal_u128(&mut m, i as u128 + 2);
                push_str(&mut m, ": ");
                push_str(&mut m, e.as_str());
                assert(rv[i as int] == Err::<Seq<Seq<char>>, Seq<char>>(e@));
                assert(rv.take(i + 1).last() == rv[i as int]);
                assert(m@ == "CSV row "@ + decimal((i + 2) as nat) + ": "@ + e@);
                proof {
                    lemma_rows_err_prefix(rv, i as int + 1, c);
                }
                return Err(string_of(m.as_slice()));
            },
            Ok(fields) => {
                assert(rv.take(i + 1).last() == Ok::<_, Seq<char>>(crate::vault::string_views(fields@)));
                let row = vec_of_strings(fields);
                let ghost before = out@;
                match row_entry(&row, &c, now) {
                    Some(e) => {
                        out.push(e);
                        assert(rows_of_entries(out@) =~= rows_of_entries(before).push(
                            row_of_entry(e),
                        ));
                    },
                    None => {},
                }
            },
        }
        i = i + 1;
    }
    assert(rv.take(rows@.len() as int) == rv);
    Ok(out)
}

proof fn lemma_rows_err_prefix(rows: Seq<Result<Seq<Seq<char>>, Seq<char>>>, n: int, c: Columns)
    requires
        0 <= n <= rows.len(),
        rows_logins(rows.take(n), c) is Err,
    ensures
        rows_logins(rows, c) == rows_logins(rows.take(n), c),
    decreases rows.len() - n,
{
    if n < rows.len() {
        assert(rows.take(n + 1).drop_last() == rows.take(n));
        lemma_rows_err_prefix(rows, n + 1, c);
    } else {
        assert(rows.take(n) == rows);
    }
}

/// Parse a Chrome or Bitwarden password CSV into vault entries (no ids
/// yet), stamped with the current time.
pub fn parse_login_csv(text: &str) -> (r: Result<Vec<VaultEntry>, String>)
    ensures
        match logins_from_table(csv_header_row(text@), csv_data_rows(text@)) {
            Ok(ls) => r matches Ok(es) && rows_of_entries(es@) == ls,
            Err(m) => r matches Err(s) && s@ == m,
        },
{
    let headers = read_csv_headers(text);
    let rows = read_csv_records(text);
    let now = crate::vault::now_unix();
    login_entries_from_table(&headers, &rows, now)
}

/// What an import says of a file with no login row.
pub open spec fn no_logins_text() -> Seq<char> {
    "no login rows found (Chrome or Bitwarden CSV?)"@
}

/// The logins of a CSV export to import: as `parse_login_csv` reads them,
/// and an error when the file holds none.
pub fn logins_to_import(text: &str) -> (r: Result<Vec<VaultEntry>, String>)
    ensures
        match logins_from_table(csv_header_row(text@), csv_data_rows(text@)) {
            Ok(ls) => if ls.len() == 0 {
                r matches Err(s) && s@ == no_logins_text()
            } else {
                r matches Ok(es) && rows_of_entries(es@) == ls
            },
            Err(m) => r matches Err(s) && s@ == m,
        },
{
    match parse_login_csv(text) {
        Ok(es) => {
            if es.len() == 0 {
                Err(String::from_str("no login rows found (Chrome or Bitwarden CSV?)"))
            } else {
                Ok(es)
            }
        },
        Err(e) => Err(e),
    }
}

/// The part of a (normalised) origin that identifies a site: after `://`.
pub open spec fn host_key(o: Seq<char>) -> Seq<char> {
    match split_once_seq(o, "://"@) {
        Some((_, rest)) => rest,
        None => o,
    }
}

/// First stored entry for the same site and username.
pub open spec fn find_match(es: Seq<EntryView>, origin: Seq<char>, username: Seq<char>) -> Option<int>
    decreases es.len(),
{
    if es.len() == 0 {
        None
    } else {
        match find_match(es.drop_last(), origin, username) {
            Some(j) => Some(j),
            None => if host_key(es.last().origin) == host_key(origin) && es.last().username
                == username {
                Some(es.len() - 1)
            } else {
                None
            },
        }
    }
}

/// Counts of an import, as numbers.
pub struct Counts {
    pub added: nat,
    pub updated: nat,
    pub skipped: nat,
}

/// Merging one incoming entry: skipped without origin or password, or when
/// the same site+username already has that password and notes; else the
/// stored password (and notes, if given) are updated, or the entry is added
/// (with `fresh` as id when it has none). Touched entries are stamped `now`.
pub open spec fn import_one(es: Seq<EntryView>, c: Counts, e: EntryView, now: i64, fresh: Seq<char>) -> (
    Seq<EntryView>,
    Counts,
) {
    let o = origin_of(e.origin);
    if o.len() == 0 || e.password.len() == 0 {
        (es, Counts { skipped: c.skipped + 1, ..c })
    } else {
        match find_match(es, o, e.username) {
            Some(j) => {
                let ex = es[j];
                if ex.password == e.password && ex.notes == e.notes {
                    (es, Counts { skipped: c.skipped + 1, ..c })
                } else {
                    (
                        es.update(
                            j,
                            EntryView {
                                password: e.password,
                                notes: if e.notes is Some {
                                    e.notes
                                } else {
                                    ex.notes
                                },
                                updated_at: now,
                                ..ex
                            },
                        ),
                        Counts { updated: c.updated + 1, ..c },
                    )
                }
            },
            None => (
                es.push(
                    EntryView {
                        origin: o,
                        id: if e.id.len() == 0 {
                            fresh
                        } else {
                            e.id
                        },
                        updated_at: now,
                        ..e
                    },
                ),
                Counts { added: c.added + 1, ..c },
            ),
        }
    }
}

/// Merging all incoming entries in order; `ids[k]` is the id the k-th gets
/// when it is added without one.
pub open spec fn import_all(es: Seq<EntryView>, incoming: Seq<EntryView>, now: i64, ids: Seq<Seq<char>>) -> (
    Seq<EntryView>,
    Counts,
)
    decreases incoming.len(),
{
    if incoming.len() == 0 {
        (es, Counts { added: 0, updated: 0, skipped: 0 })
    } else {
        let (s, c) = import_all(es, incoming.drop_last(), now, ids);
        import_one(s, c, incoming.last(), now, ids[incoming.len() - 1])
    }
}

/// Every incoming entry is counted once: as added, updated or skipped.
pub proof fn law_import_counts(es: Seq<EntryView>, incoming: Seq<EntryView>, now: i64, ids: Seq<Seq<char>>)
    ensures
        import_all(es, incoming, now, ids).1.added + import_all(es, incoming, now, ids).1.updated
            + import_all(es, incoming, now, ids).1.skipped == incoming.len(),
    decreases incoming.len(),
{
    if incoming.len() > 0 {
        law_import_counts(es, incoming.drop_last(), now, ids);
    }
}

proof fn lemma_find_match_props(es: Seq<EntryView>, origin: Seq<char>, username: Seq<char>)
    ensures
        match find_match(es, origin, username) {
            Some(j) => 0 <= j < es.len(),
            None => true,
        },
    decreases es.len(),
{
    if es.len() > 0 {
        lemma_find_match_props(es.drop_last(), origin, username);
    }
}

proof fn lemma_find_match_prefix(es: Seq<EntryView>, n: int, origin: Seq<char>, username: Seq<char>)
    requires
        0 <= n <= es.len(),
        find_match(es.take(n), origin, username) is Some,
    ensures
        find_match(es, origin, username) == find_match(es.take(n), origin, username),
    decreases es.len() - n,
{
    if n < es.len() {
        assert(es.take(n + 1).drop_last() == es.take(n));
        lemma_find_match_prefix(es, n + 1, origin, username);
    } else {
        assert(es.take(n) == es);
    }
}

fn host_key_chars(o: &[char]) -> (r: Vec<char>)
    ensures
        r@ == host_key(o@),
{
    match split_once_str_chars(o, "://") {
        Some((_, rest)) => rest,
        None => crate::text::slice_copy(o, 0, o.len()),
    }
}

fn find_match_exec(es: &Vec<VaultEntry>, origin: &[char], username: &[char]) -> (r: Option<usize>)
    ensures
        match r {
            Some(j) => find_match(entry_views(es@), origin@, username@) == Some(j as int) && j
                < es@.len(),
            None => find_match(entry_views(es@), origin@, username@) is None,
        },
{
    let hk = host_key_chars(origin);
    let mut j: usize = 0;
    while j < es.len()
        invariant
            j <= es@.len(),
            hk@ == host_key(origin@),
            find_match(entry_views(es@).take(j as int), origin@, username@) is None,
        decreases es@.len() - j,
    {
        let ghost ev = entry_views(es@);
        assert(ev.take(j + 1).drop_last() == ev.take(j as int));
        assert(ev.take(j + 1).last() == es@[j as int]@);
        let eo = chars_of(es[j].origin.as_str());
        let ek = host_key_chars(eo.as_slice());
        let eu = chars_of(es[j].username.as_str());
        if chars_eq(ek.as_slice(), hk.as_slice()) && chars_eq(eu.as_slice(), username) {
            proof {
                lemma_find_match_prefix(ev, j as int + 1, origin@, username@);
            }
            return Some(j);
        }
        j = j + 1;
    }
    assert(entry_views(es@).take(es@.len() as int) == entry_views(es@));
    None
}

fn opt_eq(a: &Option<String>, b: &Option<String>) -> (r: bool)
    ensures
        r == (crate::vault::opt_view(*a) == crate::vault::opt_view(*b)),
{
    match (a, b) {
        (Some(x), Some(y)) => {
            let xv = chars_of(x.as_str());
            let yv = chars_of(y.as_str());
            chars_eq(xv.as_slice(), yv.as_slice())
        },
        (None, None) => true,
        _ => false,
    }
}

/// Merges `incoming` into `data` by (site, username); `ids[k]` names the
/// k-th entry when it is added without an id. See `import_all`.
pub fn merge_entries(data: &mut VaultData, incoming: &Vec<VaultEntry>, now: i64, ids: &Vec<String>) -> (r:
    ImportStats)
    requires
        ids@.len() == incoming@.len(),
    ensures
        ({
            let (es, c) = import_all(
                entry_views(old(data).entries@),
                entry_views(incoming@),
                now,
                crate::vault::string_views(ids@),
            );
            &&& entry_views(final(data).entries@) == es
            &&& r.added == c.added && r.updated == c.updated && r.skipped == c.skipped
        }),
        final(data).never_save == old(data).never_save,
        final(data).version == old(data).version,
{
    let ghost start = entry_views(data.entries@);
    let ghost inc = entry_views(incoming@);
    let ghost idv = crate::vault::string_views(ids@);
    let mut stats = ImportStats { added: 0, updated: 0, skipped: 0 };
    let mut k: usize = 0;
    while k < incoming.len()
        invariant
            k <= incoming@.len(),
            ids@.len() == incoming@.len(),
            inc == entry_views(incoming@),
            idv == crate::vault::string_views(ids@),
            ({
                let (es, c) = import_all(start, inc.take(k as int), now, idv);
                &&& entry_views(data.entries@) == es
                &&& stats.added == c.added && stats.updated == c.updated && stats.skipped
                    == c.skipped
            }),
            data.never_save == old(data).never_save,
            data.version == old(data).version,
        decreases incoming@.len() - k,
    {
        proof {
            law_import_counts(start, inc.take(k as int), now, idv);
        }
        assert(inc.take(k + 1).drop_last() == inc.take(k as int));
        assert(inc.take(k + 1).last() == incoming@[k as int]@);
        assert(inc.take(k + 1).len() == k + 1);
        let ghost before = entry_views(data.entries@);
        let e = &incoming[k];
        let o = crate::vault::normalize_origin(e.origin.as_str());
        let ov = chars_of(o.as_str());
        let pw = chars_of(e.password.as_str());
        if ov.len() == 0 || pw.len() == 0 {
            stats.skipped = stats.skipped + 1;
        } else {
            let un = chars_of(e.username.as_str());
            match find_match_exec(&data.entries, ov.as_slice(), un.as_slice()) {
                Some(j) => {
                    let existing = &data.entries[j];
                    let same_pw = existing.password == e.password;
                    if same_pw && opt_eq(&existing.notes, &e.notes) {
                        stats.skipped = stats.skipped + 1;
                    } else {
                        let mut updated = clone_entry(existing);
                        updated.password = e.password.clone();
                        if e.notes.is_some() {
                            updated.notes = crate::vault::clone_opt(&e.notes);
                        }
                        updated.updated_at = now;
                        let ghost uv = updated@;
                        data.entries.set(j, updated);
                        assert(entry_views(data.entries@) =~= before.update(j as int, uv));
                        stats.updated = stats.updated + 1;
                    }
                },
                None => {
                    let mut added = clone_entry(e);
                    added.origin = o;
                    if added.id.as_str().is_empty() {
                        added.id = ids[k].clone();
                    }
                    added.updated_at = now;
                    let ghost av = added@;
                    data.entries.push(added);
                    assert(entry_views(data.entries@) =~= before.push(av));
                    stats.added = stats.added + 1;
                },
            }
        }
        k = k + 1;
    }
    assert(inc.take(incoming@.len() as int) == inc);
    stats
}

/// The import of `incoming` into `es`, stamped `now` and naming new
/// entries from `ids`, gives `entries` and the counts in `r`.
pub open spec fn imported_as(
    es: Seq<EntryView>,
    incoming: Seq<EntryView>,
    now: i64,
    ids: Seq<Seq<char>>,
    entries: Seq<EntryView>,
    r: ImportStats,
) -> bool {
    let (e2, c) = import_all(es, incoming, now, ids);
    &&& entries == e2
    &&& r.added == c.added
    &&& r.updated == c.updated
    &&& r.skipped == c.skipped
}

/// A login row keeps its note: with a note column `n`, the imported login's
/// notes are that cell trimmed whenever it is not blank, and none when it
/// is blank or there is no note column. Its username is the trimmed user
/// cell and its password the trimmed password cell.
pub proof fn law_row_keeps_note(row: Seq<Seq<char>>, c: Columns)
    requires
        row_login(row, c) is Some,
    ensures
        ({
            let l = row_login(row, c)->0;
            &&& l.username == trim(cell(row, c.user as int))
            &&& l.password == trim(cell(row, c.pass as int))
            &&& l.password.len() > 0
            &&& match c.notes {
                Some(n) => if trim(cell(row, n as int)).len() > 0 {
                    l.notes == Some(trim(cell(row, n as int)))
                } else {
                    l.notes is None
                },
                None => l.notes is None,
            }
        }),
{
}

/// A Chrome export's note column is its `note` column, else its `notes`
/// column; a Bitwarden export's is its `notes` column.
pub proof fn law_note_column(h: Seq<Seq<char>>)
    ensures
        col(h, "url"@) is Some && col(h, "username"@) is Some && col(h, "password"@) is Some
            ==> columns_of(h) is Some && columns_of(h)->0.notes == opt_usize(
            if col(h, "note"@) is Some {
                col(h, "note"@)
            } else {
                col(h, "notes"@)
            },
        ),
        !(col(h, "url"@) is Some && col(h, "username"@) is Some && col(h, "password"@) is Some)
            && col(h, "login_uri"@) is Some && col(h, "login_username"@) is Some && col(
            h,
            "login_password"@,
        ) is Some ==> columns_of(h) is Some && columns_of(h)->0.notes == opt_usize(
            col(h, "notes"@),
        ),
{
}

proof fn lemma_plain_header(s: Seq<char>)
    requires
        s.len() > 0,
        forall|i: int| 0 <= i < s.len() ==> 'a' <= #[trigger] s[i] <= 'z',
    ensures
        to_lower(trim(s)) == s,
{
    assert(!crate::text::is_ws(s[0]));
    assert(!crate::text::is_ws(s.last()));
    crate::vault::lemma_trim_stable(s);
    assert(to_lower(s) =~= s);
}

/// The header `name,url,username,password,note` of a Chrome export reads
/// as url column 1, username 2, password 3 and note 4.
pub proof fn law_chrome_header_columns()
    ensures
        columns_of(seq!["name"@, "url"@, "username"@, "password"@, "note"@]) == Some(
            Columns { url: 1, user: 2, pass: 3, notes: Some(4), kind: None },
        ),
{
    reveal_strlit("name");
    reveal_strlit("url");
    reveal_strlit("username");
    reveal_strlit("password");
    reveal_strlit("note");
    reveal_strlit("notes");
    let h = seq!["name"@, "url"@, "username"@, "password"@, "note"@];
    lemma_plain_header("name"@);
    lemma_plain_header("url"@);
    lemma_plain_header("username"@);
    lemma_plain_header("password"@);
    lemma_plain_header("note"@);
    assert(h.drop_last() =~= seq!["name"@, "url"@, "username"@, "password"@]);
    assert(h.drop_last().drop_last() =~= seq!["name"@, "url"@, "username"@]);
    assert(h.drop_last().drop_last().drop_last() =~= seq!["name"@, "url"@]);
    assert(h.drop_last().drop_last().drop_last().drop_last() =~= seq!["name"@]);
    assert(seq!["name"@].drop_last() =~= Seq::<Seq<char>>::empty());
    assert("note"@.len() == 4 && "password"@.len() == 8 && "username"@.len() == 8);
    assert("password"@[0] != "username"@[0]);
    let h4 = h.drop_last();
    let h3 = h4.drop_last();
    assert(col(h, "note"@) == Some(4int));
    assert(col(h4, "password"@) == Some(3int));
    assert(col(h, "password"@) == Some(3int));
    assert(col(h3, "username"@) == Some(2int));
    assert(col(h4, "username"@) == Some(2int));
    assert(col(h, "username"@) == Some(2int));
    let h2 = h3.drop_last();
    assert("url"@.len() == 3);
    assert(col(h2, "url"@) == Some(1int));
    assert(col(h3, "url"@) == Some(1int));
    assert(col(h4, "url"@) == Some(1int));
    assert(col(h, "url"@) == Some(1int));
}

/// Under a Chrome header `name,url,username,password,note`, a row with a
/// url and a password imports its note (trimmed) whenever the note is not
/// blank.
pub proof fn law_chrome_row_note(row: Seq<Seq<char>>)
    requires
        row.len() >= 5,
        trim(row[1]).len() > 0,
        trim(row[3]).len() > 0,
        trim(row[4]).len() > 0,
    ensures
        ({
            let c = columns_of(seq!["name"@, "url"@, "username"@, "password"@, "note"@])->0;
            &&& row_login(row, c) is Some
            &&& row_login(row, c)->0.notes == Some(trim(row[4]))
            &&& row_login(row, c)->0.username == trim(row[2])
            &&& row_login(row, c)->0.password == trim(row[3])
        }),
{
    law_chrome_header_columns();
}

} // verus!
