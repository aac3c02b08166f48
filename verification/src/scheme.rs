//! URI schemes understood by the driver: the single table of scheme
//! semantics shared by the driver and the tools built on it, and the
//! lookups over it.

use vstd::prelude::*;

use crate::errors::Error;
use crate::text::str_equal;

verus! {

/// What a URI scheme means for a connection.
#[derive(Debug, Clone, Copy, PartialEq, Eq)]
pub struct SchemeInfo {
    /// The scheme literal (lower case, without `://`).
    pub scheme: &'static str,
    /// Whether client-side cluster routing is used.
    pub routing: bool,
    /// Whether the transport is encrypted.
    pub encryption: bool,
    /// Whether the server certificate is validated.
    pub validation: bool,
    /// Whether the TLCP (GM/T 0024-2014) protocol is used.
    pub tlcp: bool,
}

/// Mathematical model of a [`SchemeInfo`].
pub struct SchemeInfoView {
    pub scheme: Seq<char>,
    pub routing: bool,
    pub encryption: bool,
    pub validation: bool,
    pub tlcp: bool,
}

impl View for SchemeInfo {
    type V = SchemeInfoView;

    open spec fn view(&self) -> SchemeInfoView {
        SchemeInfoView {
            scheme: self.scheme@,
            routing: self.routing,
            encryption: self.encryption,
            validation: self.validation,
            tlcp: self.tlcp,
        }
    }
}

pub open spec fn row(
    scheme: Seq<char>,
    routing: bool,
    encryption: bool,
    validation: bool,
    tlcp: bool,
) -> SchemeInfoView {
    SchemeInfoView { scheme, routing, encryption, validation, tlcp }
}

/// The scheme table, in order: unencrypted, TLS, TLCP; single server, then
/// cluster; then the neo4j-compatible schemes.
pub open spec fn scheme_table() -> Seq<SchemeInfoView> {
    seq![
        row("bolt"@, false, false, false, false),
        row("bolt+s"@, false, true, true, false),
        row("bolt+ssl"@, false, true, true, false),
        row("bolt+ssc"@, false, true, false, false),
        row("bolt+gms"@, false, true, true, true),
        row("bolt+gmssl"@, false, true, true, true),
        row("bolt+gmssc"@, false, true, false, true),
        row("bolt+cluster"@, true, false, false, false),
        row("bolt+cluster+ssl"@, true, true, true, false),
        row("bolt+cluster+ssc"@, true, true, false, false),
        row("bolt+cluster+gmssl"@, true, true, true, true),
        row("bolt+cluster+gmssc"@, true, true, false, true),
        row("neo4j"@, true, false, false, false),
        row("neo4j+s"@, true, true, true, false),
        row("neo4j+ssl"@, true, true, true, false),
        row("neo4j+ssc"@, true, true, false, false),
    ]
}

/// The views of a sequence of scheme entries.
pub open spec fn views(entries: Seq<SchemeInfo>) -> Seq<SchemeInfoView> {
    entries.map_values(|e: SchemeInfo| e@)
}

/// The table key a scheme string is looked up under: the empty scheme
/// stands for `"bolt"`, as when a URL carries no scheme.
pub open spec fn lookup_key(scheme: Seq<char>) -> Seq<char> {
    if scheme.len() == 0 {
        "bolt"@
    } else {
        scheme
    }
}

/// The first entry of `entries` named `key`, if any.
pub open spec fn first_named(entries: Seq<SchemeInfoView>, key: Seq<char>) -> Option<
    SchemeInfoView,
>
    decreases entries.len(),
{
    if entries.len() == 0 {
        None
    } else if entries[0].scheme == key {
        Some(entries[0])
    } else {
        first_named(entries.drop_first(), key)
    }
}

/// What looking up `scheme` in the table gives.
pub open spec fn spec_lookup(scheme: Seq<char>) -> Option<SchemeInfoView> {
    first_named(scheme_table(), lookup_key(scheme))
}

/// The scheme table as values.
pub fn schemes() -> (r: Vec<SchemeInfo>)
    ensures
        views(r@) == scheme_table(),
{
    let mut v: Vec<SchemeInfo> = Vec::new();
    v.push(SchemeInfo { scheme: "bolt", routing: false, encryption: false, validation: false, tlcp: false });
    v.push(SchemeInfo { scheme: "bolt+s", routing: false, encryption: true, validation: true, tlcp: false });
    v.push(SchemeInfo { scheme: "bolt+ssl", routing: false, encryption: true, validation: true, tlcp: false });
    v.push(SchemeInfo { scheme: "bolt+ssc", routing: false, encryption: true, validation: false, tlcp: false });
    v.push(SchemeInfo { scheme: "bolt+gms", routing: false, encryption: true, validation: true, tlcp: true });
    v.push(SchemeInfo { scheme: "bolt+gmssl", routing: false, encryption: true, validation: true, tlcp: true });
    v.push(SchemeInfo { scheme: "bolt+gmssc", routing: false, encryption: true, validation: false, tlcp: true });
    v.push(SchemeInfo { scheme: "bolt+cluster", routing: true, encryption: false, validation: false, tlcp: false });
    v.push(SchemeInfo { scheme: "bolt+cluster+ssl", routing: true, encryption: true, validation: true, tlcp: false });
    v.push(SchemeInfo { scheme: "bolt+cluster+ssc", routing: true, encryption: true, validation: false, tlcp: false });
    v.push(SchemeInfo { scheme: "bolt+cluster+gmssl", routing: true, encryption: true, validation: true, tlcp: true });
    v.push(SchemeInfo { scheme: "bolt+cluster+gmssc", routing: true, encryption: true, validation: false, tlcp: true });
    v.push(SchemeInfo { scheme: "neo4j", routing: true, encryption: false, validation: false, tlcp: false });
    v.push(SchemeInfo { scheme: "neo4j+s", routing: true, encryption: true, validation: true, tlcp: false });
    v.push(SchemeInfo { scheme: "neo4j+ssl", routing: true, encryption: true, validation: true, tlcp: false });
    v.push(SchemeInfo { scheme: "neo4j+ssc", routing: true, encryption: true, validation: false, tlcp: false });
    assert(views(v@) =~= scheme_table());
    v
}

/// Looks `scheme` up in the table; `None` when it is not there.
///
/// The empty string is treated as `"bolt"`.
pub fn lookup(scheme: &str) -> (r: Option<SchemeInfo>)
    ensures
        r matches Some(info) ==> spec_lookup(scheme@) == Some(info@),
        r is None ==> spec_lookup(scheme@) is None,
{
    let key: &str = if scheme.is_empty() {
        "bolt"
    } else {
        scheme
    };
    assert(key@ == lookup_key(scheme@));
    let table = schemes();
    let mut i: usize = 0;
    assert(scheme_table().skip(0) =~= scheme_table());
    while i < table.len()
        invariant
            i <= table.len(),
            views(table@) == scheme_table(),
            key@ == lookup_key(scheme@),
            first_named(scheme_table(), key@) == first_named(scheme_table().skip(i as int), key@),
        decreases table.len() - i,
    {
        let entry = table[i];
        assert(scheme_table()[i as int] == entry@);
        if str_equal(entry.scheme, key) {
            return Some(entry);
        }
        assert(scheme_table().skip(i as int).drop_first() =~= scheme_table().skip(i + 1));
        i = i + 1;
    }
    None
}

/// Looks `scheme` up, reporting an unknown scheme as
/// [`Error::UnsupportedScheme`] with the scheme as given.
pub fn parse(scheme: &str) -> (r: Result<SchemeInfo, Error>)
    ensures
        r is Ok <==> spec_lookup(scheme@) is Some,
        r matches Ok(info) ==> spec_lookup(scheme@) == Some(info@),
        r matches Err(e) ==> (e matches Error::UnsupportedScheme(s) && s@ == scheme@),
{
    match lookup(scheme) {
        Some(info) => Ok(info),
        None => Err(Error::UnsupportedScheme(scheme.to_owned())),
    }
}

/// Whether `scheme` is a cluster (routing) scheme; unknown schemes are not.
pub fn is_cluster(scheme: &str) -> (r: bool)
    ensures
        r == (spec_lookup(scheme@) matches Some(info) && info.routing),
{
    match lookup(scheme) {
        Some(info) => info.routing,
        None => false,
    }
}

/// Whether `scheme` uses TLCP; unknown schemes do not.
pub fn is_tlcp(scheme: &str) -> (r: bool)
    ensures
        r == (spec_lookup(scheme@) matches Some(info) && info.tlcp),
{
    match lookup(scheme) {
        Some(info) => info.tlcp,
        None => false,
    }
}

/// Whether `scheme` encrypts the transport (TLS or TLCP); unknown schemes do not.
pub fn is_encrypted(scheme: &str) -> (r: bool)
    ensures
        r == (spec_lookup(scheme@) matches Some(info) && info.encryption),
{
    match lookup(scheme) {
        Some(info) => info.encryption,
        None => false,
    }
}

proof fn lemma_first_named_at(entries: Seq<SchemeInfoView>, key: Seq<char>, i: int)
    requires
        0 <= i < entries.len(),
        entries[i].scheme == key,
        forall|j: int| 0 <= j < i ==> entries[j].scheme != key,
    ensures
        first_named(entries, key) == Some(entries[i]),
    decreases i,
{
    if i > 0 {
        lemma_first_named_at(entries.drop_first(), key, i - 1);
    }
}

proof fn lemma_first_named_none(entries: Seq<SchemeInfoView>, key: Seq<char>)
    requires
        forall|j: int| 0 <= j < entries.len() ==> entries[j].scheme != key,
    ensures
        first_named(entries, key) is None,
    decreases entries.len(),
{
    if entries.len() > 0 {
        lemma_first_named_none(entries.drop_first(), key);
    }
}

proof fn lemma_first_named_member(entries: Seq<SchemeInfoView>, key: Seq<char>)
    ensures
        first_named(entries, key) matches Some(e) ==> e.scheme == key && exists|i: int|
            0 <= i < entries.len() && entries[i] == e,
    decreases entries.len(),
{
    if entries.len() > 0 && entries[0].scheme != key {
        lemma_first_named_member(entries.drop_first(), key);
        if first_named(entries, key) is Some {
            let e = first_named(entries, key)->0;
            let i: int = choose|i: int| 0 <= i < entries.len() - 1 && entries.drop_first()[i] == e;
            assert(entries[i + 1] == e);
        }
    } else if entries.len() > 0 {
        assert(entries[0] == first_named(entries, key)->0);
    }
}

/// Each scheme name occurs once in the table.
pub proof fn lemma_scheme_names_unique()
    ensures
        forall|i: int, j: int|
            0 <= i < j < scheme_table().len() ==> scheme_table()[i].scheme
                != scheme_table()[j].scheme,
{
    reveal_strlit("bolt");
    reveal_strlit("bolt+s");
    reveal_strlit("bolt+ssl");
    reveal_strlit("bolt+ssc");
    reveal_strlit("bolt+gms");
    reveal_strlit("bolt+gmssl");
    reveal_strlit("bolt+gmssc");
    reveal_strlit("bolt+cluster");
    reveal_strlit("bolt+cluster+ssl");
    reveal_strlit("bolt+cluster+ssc");
    reveal_strlit("bolt+cluster+gmssl");
    reveal_strlit("bolt+cluster+gmssc");
    reveal_strlit("neo4j");
    reveal_strlit("neo4j+s");
    reveal_strlit("neo4j+ssl");
    reveal_strlit("neo4j+ssc");
    assert(scheme_table()[0].scheme.len() != scheme_table()[1].scheme.len());
    assert(scheme_table()[0].scheme.len() != scheme_table()[2].scheme.len());
    assert(scheme_table()[0].scheme.len() != scheme_table()[3].scheme.len());
    assert(scheme_table()[0].scheme.len() != scheme_table()[4].scheme.len());
    assert(scheme_table()[0].scheme.len() != scheme_table()[5].scheme.len());
    assert(scheme_table()[0].scheme.len() != scheme_table()[6].scheme.len());
    assert(scheme_table()[0].scheme.len() != scheme_table()[7].scheme.len());
    assert(scheme_table()[0].scheme.len() != scheme_table()[8].scheme.len());
    assert(scheme_table()[0].scheme.len() != scheme_table()[9].scheme.len());
    assert(scheme_table()[0].scheme.len() != scheme_table()[10].scheme.len());
    assert(scheme_table()[0].scheme.len() != scheme_table()[11].scheme.len());
    assert(scheme_table()[0].scheme.len() != scheme_table()[12].scheme.len());
    assert(scheme_table()[0].scheme.len() != scheme_table()[13].scheme.len());
    assert(scheme_table()[0].scheme.len() != scheme_table()[14].scheme.len());
    assert(scheme_table()[0].scheme.len() != scheme_table()[15].scheme.len());
    assert(scheme_table()[1].scheme.len() != scheme_table()[2].scheme.len());
    assert(scheme_table()[1].scheme.len() != scheme_table()[3].scheme.len());
    assert(scheme_table()[1].scheme.len() != scheme_table()[4].scheme.len());
    assert(scheme_table()[1].scheme.len() != scheme_table()[5].scheme.len());
    assert(scheme_table()[1].scheme.len() != scheme_table()[6].scheme.len());
    assert(scheme_table()[1].scheme.len() != scheme_table()[7].scheme.len());
    assert(scheme_table()[1].scheme.len() != scheme_table()[8].scheme.len());
    assert(scheme_table()[1].scheme.len() != scheme_table()[9].scheme.len());
    assert(scheme_table()[1].scheme.len() != scheme_table()[10].scheme.len());
    assert(scheme_table()[1].scheme.len() != scheme_table()[11].scheme.len());
    assert(scheme_table()[1].scheme.len() != scheme_table()[12].scheme.len());
    assert(scheme_table()[1].scheme.len() != scheme_table()[13].scheme.len());
    assert(scheme_table()[1].scheme.len() != scheme_table()[14].scheme.len());
    assert(scheme_table()[1].scheme.len() != scheme_table()[15].scheme.len());
    assert(scheme_table()[2].scheme[7] != scheme_table()[3].scheme[7]);
    assert(scheme_table()[2].scheme[5] != scheme_table()[4].scheme[5]);
    assert(scheme_table()[2].scheme.len() != scheme_table()[5].scheme.len());
    assert(scheme_table()[2].scheme.len() != scheme_table()[6].scheme.len());
    assert(scheme_table()[2].scheme.len() != scheme_table()[7].scheme.len());
    assert(scheme_table()[2].scheme.len() != scheme_table()[8].scheme.len());
    assert(scheme_table()[2].scheme.len() != scheme_table()[9].scheme.len());
    assert(scheme_table()[2].scheme.len() != scheme_table()[10].scheme.len());
    assert(scheme_table()[2].scheme.len() != scheme_table()[11].scheme.len());
    assert(scheme_table()[2].scheme.len() != scheme_table()[12].scheme.len());
    assert(scheme_table()[2].scheme.len() != scheme_table()[13].scheme.len());
    assert(scheme_table()[2].scheme.len() != scheme_table()[14].scheme.len());
    assert(scheme_table()[2].scheme.len() != scheme_table()[15].scheme.len());
    assert(scheme_table()[3].scheme[5] != scheme_table()[4].scheme[5]);
    assert(scheme_table()[3].scheme.len() != scheme_table()[5].scheme.len());
    assert(scheme_table()[3].scheme.len() != scheme_table()[6].scheme.len());
    assert(scheme_table()[3].scheme.len() != scheme_table()[7].scheme.len());
    assert(scheme_table()[3].scheme.len() != scheme_table()[8].scheme.len());
    assert(scheme_table()[3].scheme.len() != scheme_table()[9].scheme.len());
    assert(scheme_table()[3].scheme.len() != scheme_table()[10].scheme.len());
    assert(scheme_table()[3].scheme.len() != scheme_table()[11].scheme.len());
    assert(scheme_table()[3].scheme.len() != scheme_table()[12].scheme.len());
    assert(scheme_table()[3].scheme.len() != scheme_table()[13].scheme.len());
    assert(scheme_table()[3].scheme.len() != scheme_table()[14].scheme.len());
    assert(scheme_table()[3].scheme.len() != scheme_table()[15].scheme.len());
    assert(scheme_table()[4].scheme.len() != scheme_table()[5].scheme.len());
    assert(scheme_table()[4].scheme.len() != scheme_table()[6].scheme.len());
    assert(scheme_table()[4].scheme.len() != scheme_table()[7].scheme.len());
    assert(scheme_table()[4].scheme.len() != scheme_table()[8].scheme.len());
    assert(scheme_table()[4].scheme.len() != scheme_table()[9].scheme.len());
    assert(scheme_table()[4].scheme.len() != scheme_table()[10].scheme.len());
    assert(scheme_table()[4].scheme.len() != scheme_table()[11].scheme.len());
    assert(scheme_table()[4].scheme.len() != scheme_table()[12].scheme.len());
    assert(scheme_table()[4].scheme.len() != scheme_table()[13].scheme.len());
    assert(scheme_table()[4].scheme.len() != scheme_table()[14].scheme.len());
    assert(scheme_table()[4].scheme.len() != scheme_table()[15].scheme.len());
    assert(scheme_table()[5].scheme[9] != scheme_table()[6].scheme[9]);
    assert(scheme_table()[5].scheme.len() != scheme_table()[7].scheme.len());
    assert(scheme_table()[5].scheme.len() != scheme_table()[8].scheme.len());
    assert(scheme_table()[5].scheme.len() != scheme_table()[9].scheme.len());
    assert(scheme_table()[5].scheme.len() != scheme_table()[10].scheme.len());
    assert(scheme_table()[5].scheme.len() != scheme_table()[11].scheme.len());
    assert(scheme_table()[5].scheme.len() != scheme_table()[12].scheme.len());
    assert(scheme_table()[5].scheme.len() != scheme_table()[13].scheme.len());
    assert(scheme_table()[5].scheme.len() != scheme_table()[14].scheme.len());
    assert(scheme_table()[5].scheme.len() != scheme_table()[15].scheme.len());
    assert(scheme_table()[6].scheme.len() != scheme_table()[7].scheme.len());
    assert(scheme_table()[6].scheme.len() != scheme_table()[8].scheme.len());
    assert(scheme_table()[6].scheme.len() != scheme_table()[9].scheme.len());
    assert(scheme_table()[6].scheme.len() != scheme_table()[10].scheme.len());
    assert(scheme_table()[6].scheme.len() != scheme_table()[11].scheme.len());
    assert(scheme_table()[6].scheme.len() != scheme_table()[12].scheme.len());
    assert(scheme_table()[6].scheme.len() != scheme_table()[13].scheme.len());
    assert(scheme_table()[6].scheme.len() != scheme_table()[14].scheme.len());
    assert(scheme_table()[6].scheme.len() != scheme_table()[15].scheme.len());
    assert(scheme_table()[7].scheme.len() != scheme_table()[8].scheme.len());
    assert(scheme_table()[7].scheme.len() != scheme_table()[9].scheme.len());
    assert(scheme_table()[7].scheme.len() != scheme_table()[10].scheme.len());
    assert(scheme_table()[7].scheme.len() != scheme_table()[11].scheme.len());
    assert(scheme_table()[7].scheme.len() != scheme_table()[12].scheme.len());
    assert(scheme_table()[7].scheme.len() != scheme_table()[13].scheme.len());
    assert(scheme_table()[7].scheme.len() != scheme_table()[14].scheme.len());
    assert(scheme_table()[7].scheme.len() != scheme_table()[15].scheme.len());
    assert(scheme_table()[8].scheme[15] != scheme_table()[9].scheme[15]);
    assert(scheme_table()[8].scheme.len() != scheme_table()[10].scheme.len());
    assert(scheme_table()[8].scheme.len() != scheme_table()[11].scheme.len());
    assert(scheme_table()[8].scheme.len() != scheme_table()[12].scheme.len());
    assert(scheme_table()[8].scheme.len() != scheme_table()[13].scheme.len());
    assert(scheme_table()[8].scheme.len() != scheme_table()[14].scheme.len());
    assert(scheme_table()[8].scheme.len() != scheme_table()[15].scheme.len());
    assert(scheme_table()[9].scheme.len() != scheme_table()[10].scheme.len());
    assert(scheme_table()[9].scheme.len() != scheme_table()[11].scheme.len());
    assert(scheme_table()[9].scheme.len() != scheme_table()[12].scheme.len());
    assert(scheme_table()[9].scheme.len() != scheme_table()[13].scheme.len());
    assert(scheme_table()[9].scheme.len() != scheme_table()[14].scheme.len());
    assert(scheme_table()[9].scheme.len() != scheme_table()[15].scheme.len());
    assert(scheme_table()[10].scheme[17] != scheme_table()[11].scheme[17]);
    assert(scheme_table()[10].scheme.len() != scheme_table()[12].scheme.len());
    assert(scheme_table()[10].scheme.len() != scheme_table()[13].scheme.len());
    assert(scheme_table()[10].scheme.len() != scheme_table()[14].scheme.len());
    assert(scheme_table()[10].scheme.len() != scheme_table()[15].scheme.len());
    assert(scheme_table()[11].scheme.len() != scheme_table()[12].scheme.len());
    assert(scheme_table()[11].scheme.len() != scheme_table()[13].scheme.len());
    assert(scheme_table()[11].scheme.len() != scheme_table()[14].scheme.len());
    assert(scheme_table()[11].scheme.len() != scheme_table()[15].scheme.len());
    assert(scheme_table()[12].scheme.len() != scheme_table()[13].scheme.len());
    assert(scheme_table()[12].scheme.len() != scheme_table()[14].scheme.len());
    assert(scheme_table()[12].scheme.len() != scheme_table()[15].scheme.len());
    assert(scheme_table()[13].scheme.len() != scheme_table()[14].scheme.len());
    assert(scheme_table()[13].scheme.len() != scheme_table()[15].scheme.len());
    assert(scheme_table()[14].scheme[8] != scheme_table()[15].scheme[8]);
}

/// Looking a scheme up gives the table entry of that name, and nothing
/// when no entry has that name.
pub proof fn lemma_lookup_table_entry(scheme: Seq<char>)
    ensures
        forall|i: int|
            0 <= i < scheme_table().len() && scheme_table()[i].scheme == lookup_key(scheme)
                ==> spec_lookup(scheme) == Some(scheme_table()[i]),
        (forall|i: int|
            0 <= i < scheme_table().len() ==> scheme_table()[i].scheme != lookup_key(scheme))
            ==> spec_lookup(scheme) is None,
        spec_lookup(scheme) matches Some(info) ==> info.scheme == lookup_key(scheme)
            && exists|i: int| 0 <= i < scheme_table().len() && scheme_table()[i] == info,
{
    let key = lookup_key(scheme);
    assert forall|i: int|
        0 <= i < scheme_table().len() && scheme_table()[i].scheme == key implies spec_lookup(
        scheme,
    ) == Some(scheme_table()[i]) by {
        lemma_scheme_names_unique();
        lemma_first_named_at(scheme_table(), key, i);
    }
    if forall|i: int| 0 <= i < scheme_table().len() ==> scheme_table()[i].scheme != key {
        lemma_first_named_none(scheme_table(), key);
    }
    lemma_first_named_member(scheme_table(), key);
}

/// Every scheme of the table is looked up to its own entry, so the helper
/// predicates agree with the table on each of its schemes.
pub proof fn lemma_table_schemes_resolve(i: int)
    requires
        0 <= i < scheme_table().len(),
    ensures
        spec_lookup(scheme_table()[i].scheme) == Some(scheme_table()[i]),
{
    reveal_strlit("bolt");
    reveal_strlit("bolt+s");
    reveal_strlit("bolt+ssl");
    reveal_strlit("bolt+ssc");
    reveal_strlit("bolt+gms");
    reveal_strlit("bolt+gmssl");
    reveal_strlit("bolt+gmssc");
    reveal_strlit("bolt+cluster");
    reveal_strlit("bolt+cluster+ssl");
    reveal_strlit("bolt+cluster+ssc");
    reveal_strlit("bolt+cluster+gmssl");
    reveal_strlit("bolt+cluster+gmssc");
    reveal_strlit("neo4j");
    reveal_strlit("neo4j+s");
    reveal_strlit("neo4j+ssl");
    reveal_strlit("neo4j+ssc");
    assert(scheme_table()[i].scheme.len() > 0);
    lemma_lookup_table_entry(scheme_table()[i].scheme);
}

/// The empty scheme means `"bolt"`.
pub proof fn lemma_empty_scheme_is_bolt(scheme: Seq<char>)
    requires
        scheme.len() == 0,
    ensures
        spec_lookup(scheme) == spec_lookup("bolt"@),
        spec_lookup(scheme) == Some(scheme_table()[0]),
{
    lemma_table_schemes_resolve(0);
}

/// Certificate validation and TLCP only come with an encrypted transport.
pub proof fn lemma_validation_and_tlcp_need_encryption(scheme: Seq<char>)
    ensures
        spec_lookup(scheme) matches Some(info) ==> (info.validation ==> info.encryption) && (
        info.tlcp ==> info.encryption),
{
    lemma_lookup_table_entry(scheme);
}

/// The short and long spellings of a secure scheme (`+s` and `+ssl`,
/// `+gms` and `+gmssl`) mean the same connection.
pub proof fn lemma_secure_scheme_aliases()
    ensures
        same_semantics(spec_lookup("bolt+s"@), spec_lookup("bolt+ssl"@)),
        same_semantics(spec_lookup("neo4j+s"@), spec_lookup("neo4j+ssl"@)),
        same_semantics(spec_lookup("bolt+gms"@), spec_lookup("bolt+gmssl"@)),
{
    lemma_table_schemes_resolve(1);
    lemma_table_schemes_resolve(2);
    lemma_table_schemes_resolve(4);
    lemma_table_schemes_resolve(5);
    lemma_table_schemes_resolve(13);
    lemma_table_schemes_resolve(14);
}

/// Two lookups found entries with the same routing, encryption,
/// validation and TLCP flags.
pub open spec fn same_semantics(a: Option<SchemeInfoView>, b: Option<SchemeInfoView>) -> bool {
    a matches Some(x) && b matches Some(y) && x.routing == y.routing && x.encryption
        == y.encryption && x.validation == y.validation && x.tlcp == y.tlcp
}

/// A character that may appear in a scheme name: a lower-case ASCII
/// letter, a digit, or `+`.
pub open spec fn is_scheme_char(c: char) -> bool {
    ('a' <= c && c <= 'z') || ('0' <= c && c <= '9') || c == '+'
}

/// Every scheme name is non-empty and written in lower-case letters,
/// digits and `+` only: in particular it holds no `://`.
pub proof fn lemma_scheme_names_well_formed()
    ensures
        forall|i: int|
            0 <= i < scheme_table().len() ==> scheme_table()[i].scheme.len() > 0 && forall|k: int|
                0 <= k < scheme_table()[i].scheme.len() ==> is_scheme_char(
                    #[trigger] scheme_table()[i].scheme[k],
                ),
{
    reveal_strlit("bolt");
    reveal_strlit("bolt+s");
    reveal_strlit("bolt+ssl");
    reveal_strlit("bolt+ssc");
    reveal_strlit("bolt+gms");
    reveal_strlit("bolt+gmssl");
    reveal_strlit("bolt+gmssc");
    reveal_strlit("bolt+cluster");
    reveal_strlit("bolt+cluster+ssl");
    reveal_strlit("bolt+cluster+ssc");
    reveal_strlit("bolt+cluster+gmssl");
    reveal_strlit("bolt+cluster+gmssc");
    reveal_strlit("neo4j");
    reveal_strlit("neo4j+s");
    reveal_strlit("neo4j+ssl");
    reveal_strlit("neo4j+ssc");
    assert forall|k: int| 0 <= k < scheme_table()[0].scheme.len() implies is_scheme_char(
        #[trigger] scheme_table()[0].scheme[k],
    ) by {
        assert(k == 0 || k == 1 || k == 2 || k == 3);
    }
    assert forall|k: int| 0 <= k < scheme_table()[1].scheme.len() implies is_scheme_char(
        #[trigger] scheme_table()[1].scheme[k],
    ) by {
        assert(k == 0 || k == 1 || k == 2 || k == 3 || k == 4 || k == 5);
    }
    assert forall|k: int| 0 <= k < scheme_table()[2].scheme.len() implies is_scheme_char(
        #[trigger] scheme_table()[2].scheme[k],
    ) by {
        assert(k == 0 || k == 1 || k == 2 || k == 3 || k == 4 || k == 5 || k == 6 || k == 7);
    }
    assert forall|k: int| 0 <= k < scheme_table()[3].scheme.len() implies is_scheme_char(
        #[trigger] scheme_table()[3].scheme[k],
    ) by {
        assert(k == 0 || k == 1 || k == 2 || k == 3 || k == 4 || k == 5 || k == 6 || k == 7);
    }
    assert forall|k: int| 0 <= k < scheme_table()[4].scheme.len() implies is_scheme_char(
        #[trigger] scheme_table()[4].scheme[k],
    ) by {
        assert(k == 0 || k == 1 || k == 2 || k == 3 || k == 4 || k == 5 || k == 6 || k == 7);
    }
    assert forall|k: int| 0 <= k < scheme_table()[5].scheme.len() implies is_scheme_char(
        #[trigger] scheme_table()[5].scheme[k],
    ) by {
        assert(k == 0 || k == 1 || k == 2 || k == 3 || k == 4 || k == 5 || k == 6 || k == 7 || k == 8 || k == 9);
    }
    assert forall|k: int| 0 <= k < scheme_table()[6].scheme.len() implies is_scheme_char(
        #[trigger] scheme_table()[6].scheme[k],
    ) by {
        assert(k == 0 || k == 1 || k == 2 || k == 3 || k == 4 || k == 5 || k == 6 || k == 7 || k == 8 || k == 9);
    }
    assert forall|k: int| 0 <= k < scheme_table()[7].scheme.len() implies is_scheme_char(
        #[trigger] scheme_table()[7].scheme[k],
    ) by {
        assert(k == 0 || k == 1 || k == 2 || k == 3 || k == 4 || k == 5 || k == 6 || k == 7 || k == 8 || k == 9 || k == 10 || k == 11);
    }
    assert forall|k: int| 0 <= k < scheme_table()[8].scheme.len() implies is_scheme_char(
        #[trigger] scheme_table()[8].scheme[k],
    ) by {
        assert(k == 0 || k == 1 || k == 2 || k == 3 || k == 4 || k == 5 || k == 6 || k == 7 || k == 8 || k == 9 || k == 10 || k == 11 || k == 12 || k == 13 || k == 14 || k == 15);
    }
    assert forall|k: int| 0 <= k < scheme_table()[9].scheme.len() implies is_scheme_char(
        #[trigger] scheme_table()[9].scheme[k],
    ) by {
        assert(k == 0 || k == 1 || k == 2 || k == 3 || k == 4 || k == 5 || k == 6 || k == 7 || k == 8 || k == 9 || k == 10 || k == 11 || k == 12 || k == 13 || k == 14 || k == 15);
    }
    assert forall|k: int| 0 <= k < scheme_table()[10].scheme.len() implies is_scheme_char(
        #[trigger] scheme_table()[10].scheme[k],
    ) by {
        assert(k == 0 || k == 1 || k == 2 || k == 3 || k == 4 || k == 5 || k == 6 || k == 7 || k == 8 || k == 9 || k == 10 || k == 11 || k == 12 || k == 13 || k == 14 || k == 15 || k == 16 || k == 17);
    }
    assert forall|k: int| 0 <= k < scheme_table()[11].scheme.len() implies is_scheme_char(
        #[trigger] scheme_table()[11].scheme[k],
    ) by {
        assert(k == 0 || k == 1 || k == 2 || k == 3 || k == 4 || k == 5 || k == 6 || k == 7 || k == 8 || k == 9 || k == 10 || k == 11 || k == 12 || k == 13 || k == 14 || k == 15 || k == 16 || k == 17);
    }
    assert forall|k: int| 0 <= k < scheme_table()[12].scheme.len() implies is_scheme_char(
        #[trigger] scheme_table()[12].scheme[k],
    ) by {
        assert(k == 0 || k == 1 || k == 2 || k == 3 || k == 4);
    }
    assert forall|k: int| 0 <= k < scheme_table()[13].scheme.len() implies is_scheme_char(
        #[trigger] scheme_table()[13].scheme[k],
    ) by {
        assert(k == 0 || k == 1 || k == 2 || k == 3 || k == 4 || k == 5 || k == 6);
    }
    assert forall|k: int| 0 <= k < scheme_table()[14].scheme.len() implies is_scheme_char(
        #[trigger] scheme_table()[14].scheme[k],
    ) by {
        assert(k == 0 || k == 1 || k == 2 || k == 3 || k == 4 || k == 5 || k == 6 || k == 7 || k == 8);
    }
    assert forall|k: int| 0 <= k < scheme_table()[15].scheme.len() implies is_scheme_char(
        #[trigger] scheme_table()[15].scheme[k],
    ) by {
        assert(k == 0 || k == 1 || k == 2 || k == 3 || k == 4 || k == 5 || k == 6 || k == 7 || k == 8);
    }
    assert forall|i: int| 0 <= i < scheme_table().len() implies scheme_table()[i].scheme.len() > 0
        && forall|k: int|
        0 <= k < scheme_table()[i].scheme.len() ==> is_scheme_char(
            #[trigger] scheme_table()[i].scheme[k],
        ) by {
        assert(i == 0 || i == 1 || i == 2 || i == 3 || i == 4 || i == 5 || i == 6 || i == 7 || i == 8 || i == 9 || i == 10 || i == 11 || i == 12 || i == 13 || i == 14 || i == 15);
    }
}

/// Whether `s` begins with `prefix`.
pub open spec fn starts_with(s: Seq<char>, prefix: Seq<char>) -> bool {
    prefix.len() <= s.len() && s.subrange(0, prefix.len() as int) == prefix
}

/// Whether `s` ends with `suffix`.
pub open spec fn ends_with(s: Seq<char>, suffix: Seq<char>) -> bool {
    suffix.len() <= s.len() && s.subrange(s.len() - suffix.len(), s.len() as int) == suffix
}

/// A routing scheme is a `bolt+cluster` or a `neo4j` one.
pub open spec fn routing_name(name: Seq<char>) -> bool {
    starts_with(name, "bolt+cluster"@) || starts_with(name, "neo4j"@)
}

/// A TLS suffix: `+s`, `+ssl` (validated) or `+ssc` (self-signed).
pub open spec fn tls_name(name: Seq<char>) -> bool {
    ends_with(name, "+s"@) || ends_with(name, "+ssl"@) || ends_with(name, "+ssc"@)
}

/// A TLCP suffix: `+gms`, `+gmssl` (validated) or `+gmssc` (self-signed).
pub open spec fn tlcp_name(name: Seq<char>) -> bool {
    ends_with(name, "+gms"@) || ends_with(name, "+gmssl"@) || ends_with(name, "+gmssc"@)
}

/// A self-signed scheme: its suffix ends in `ssc`.
pub open spec fn self_signed_name(name: Seq<char>) -> bool {
    ends_with(name, "ssc"@)
}

/// What a scheme's name says of it: it routes exactly when it is a
/// `bolt+cluster` or `neo4j` scheme; it is encrypted exactly when it has a
/// TLS or TLCP suffix; it uses TLCP exactly when the suffix is a TLCP one;
/// and it validates the server certificate exactly when it is encrypted
/// and not self-signed.
pub open spec fn meaning_follows_name(info: SchemeInfoView) -> bool {
    &&& info.routing == routing_name(info.scheme)
    &&& info.encryption == (tls_name(info.scheme) || tlcp_name(info.scheme))
    &&& info.tlcp == tlcp_name(info.scheme)
    &&& info.validation == (info.encryption && !self_signed_name(info.scheme))
}

proof fn lemma_row_meaning(i: int)
    requires
        0 <= i < scheme_table().len(),
    ensures
        meaning_follows_name(scheme_table()[i]),
{
    reveal_strlit("bolt+cluster");
    reveal_strlit("neo4j");
    reveal_strlit("+s");
    reveal_strlit("+ssl");
    reveal_strlit("+ssc");
    reveal_strlit("+gms");
    reveal_strlit("+gmssl");
    reveal_strlit("+gmssc");
    reveal_strlit("ssc");
    if i == 0 {
        reveal_strlit("bolt");
        assert("bolt"@.subrange(2, 4)[0] != "+s"@[0]);
        assert("bolt"@.subrange(0, 4)[0] != "+ssl"@[0]);
        assert("bolt"@.subrange(0, 4)[0] != "+ssc"@[0]);
        assert("bolt"@.subrange(0, 4)[0] != "+gms"@[0]);
        assert("bolt"@.subrange(1, 4)[0] != "ssc"@[0]);
    }
    if i == 1 {
        reveal_strlit("bolt+s");
        assert("bolt+s"@.subrange(0, 5)[0] != "neo4j"@[0]);
        assert("bolt+s"@.subrange(4, 6) =~= "+s"@);
        assert("bolt+s"@.subrange(2, 6)[0] != "+ssl"@[0]);
        assert("bolt+s"@.subrange(2, 6)[0] != "+ssc"@[0]);
        assert("bolt+s"@.subrange(2, 6)[0] != "+gms"@[0]);
        assert("bolt+s"@.subrange(0, 6)[0] != "+gmssl"@[0]);
        assert("bolt+s"@.subrange(0, 6)[0] != "+gmssc"@[0]);
        assert("bolt+s"@.subrange(3, 6)[0] != "ssc"@[0]);
    }
    if i == 2 {
        reveal_strlit("bolt+ssl");
        assert("bolt+ssl"@.subrange(0, 5)[0] != "neo4j"@[0]);
        assert("bolt+ssl"@.subrange(6, 8)[0] != "+s"@[0]);
        assert("bolt+ssl"@.subrange(4, 8) =~= "+ssl"@);
        assert("bolt+ssl"@.subrange(4, 8)[3] != "+ssc"@[3]);
        assert("bolt+ssl"@.subrange(4, 8)[1] != "+gms"@[1]);
        assert("bolt+ssl"@.subrange(2, 8)[0] != "+gmssl"@[0]);
        assert("bolt+ssl"@.subrange(2, 8)[0] != "+gmssc"@[0]);
        assert("bolt+ssl"@.subrange(5, 8)[2] != "ssc"@[2]);
    }
    if i == 3 {
        reveal_strlit("bolt+ssc");
        assert("bolt+ssc"@.subrange(0, 5)[0] != "neo4j"@[0]);
        assert("bolt+ssc"@.subrange(6, 8)[0] != "+s"@[0]);
        assert("bolt+ssc"@.subrange(4, 8)[3] != "+ssl"@[3]);
        assert("bolt+ssc"@.subrange(4, 8) =~= "+ssc"@);
        assert("bolt+ssc"@.subrange(4, 8)[1] != "+gms"@[1]);
        assert("bolt+ssc"@.subrange(2, 8)[0] != "+gmssl"@[0]);
        assert("bolt+ssc"@.subrange(2, 8)[0] != "+gmssc"@[0]);
        assert("bolt+ssc"@.subrange(5, 8) =~= "ssc"@);
    }
    if i == 4 {
        reveal_strlit("bolt+gms");
        assert("bolt+gms"@.subrange(0, 5)[0] != "neo4j"@[0]);
        assert("bolt+gms"@.subrange(6, 8)[0] != "+s"@[0]);
        assert("bolt+gms"@.subrange(4, 8)[1] != "+ssl"@[1]);
        assert("bolt+gms"@.subrange(4, 8)[1] != "+ssc"@[1]);
        assert("bolt+gms"@.subrange(4, 8) =~= "+gms"@);
        assert("bolt+gms"@.subrange(2, 8)[0] != "+gmssl"@[0]);
        assert("bolt+gms"@.subrange(2, 8)[0] != "+gmssc"@[0]);
        assert("bolt+gms"@.subrange(5, 8)[0] != "ssc"@[0]);
    }
    if i == 5 {
        reveal_strlit("bolt+gmssl");
        assert("bolt+gmssl"@.subrange(0, 5)[0] != "neo4j"@[0]);
        assert("bolt+gmssl"@.subrange(8, 10)[0] != "+s"@[0]);
        assert("bolt+gmssl"@.subrange(6, 10)[0] != "+ssl"@[0]);
        assert("bolt+gmssl"@.subrange(6, 10)[0] != "+ssc"@[0]);
        assert("bolt+gmssl"@.subrange(6, 10)[0] != "+gms"@[0]);
        assert("bolt+gmssl"@.subrange(4, 10) =~= "+gmssl"@);
        assert("bolt+gmssl"@.subrange(4, 10)[5] != "+gmssc"@[5]);
        assert("bolt+gmssl"@.subrange(7, 10)[2] != "ssc"@[2]);
    }
    if i == 6 {
        reveal_strlit("bolt+gmssc");
        assert("bolt+gmssc"@.subrange(0, 5)[0] != "neo4j"@[0]);
        assert("bolt+gmssc"@.subrange(8, 10)[0] != "+s"@[0]);
        assert("bolt+gmssc"@.subrange(6, 10)[0] != "+ssl"@[0]);
        assert("bolt+gmssc"@.subrange(6, 10)[0] != "+ssc"@[0]);
        assert("bolt+gmssc"@.subrange(6, 10)[0] != "+gms"@[0]);
        assert("bolt+gmssc"@.subrange(4, 10)[5] != "+gmssl"@[5]);
        assert("bolt+gmssc"@.subrange(4, 10) =~= "+gmssc"@);
        assert("bolt+gmssc"@.subrange(7, 10) =~= "ssc"@);
    }
    if i == 7 {
        reveal_strlit("bolt+cluster");
        assert("bolt+cluster"@.subrange(0, 12) =~= "bolt+cluster"@);
        assert("bolt+cluster"@.subrange(0, 5)[0] != "neo4j"@[0]);
        assert("bolt+cluster"@.subrange(10, 12)[0] != "+s"@[0]);
        assert("bolt+cluster"@.subrange(8, 12)[0] != "+ssl"@[0]);
        assert("bolt+cluster"@.subrange(8, 12)[0] != "+ssc"@[0]);
        assert("bolt+cluster"@.subrange(8, 12)[0] != "+gms"@[0]);
        assert("bolt+cluster"@.subrange(6, 12)[0] != "+gmssl"@[0]);
        assert("bolt+cluster"@.subrange(6, 12)[0] != "+gmssc"@[0]);
        assert("bolt+cluster"@.subrange(9, 12)[0] != "ssc"@[0]);
    }
    if i == 8 {
        reveal_strlit("bolt+cluster+ssl");
        assert("bolt+cluster+ssl"@.subrange(0, 12) =~= "bolt+cluster"@);
        assert("bolt+cluster+ssl"@.subrange(0, 5)[0] != "neo4j"@[0]);
        assert("bolt+cluster+ssl"@.subrange(14, 16)[0] != "+s"@[0]);
        assert("bolt+cluster+ssl"@.subrange(12, 16) =~= "+ssl"@);
        assert("bolt+cluster+ssl"@.subrange(12, 16)[3] != "+ssc"@[3]);
        assert("bolt+cluster+ssl"@.subrange(12, 16)[1] != "+gms"@[1]);
        assert("bolt+cluster+ssl"@.subrange(10, 16)[0] != "+gmssl"@[0]);
        assert("bolt+cluster+ssl"@.subrange(10, 16)[0] != "+gmssc"@[0]);
        assert("bolt+cluster+ssl"@.subrange(13, 16)[2] != "ssc"@[2]);
    }
    if i == 9 {
        reveal_strlit("bolt+cluster+ssc");
        assert("bolt+cluster+ssc"@.subrange(0, 12) =~= "bolt+cluster"@);
        assert("bolt+cluster+ssc"@.subrange(0, 5)[0] != "neo4j"@[0]);
        assert("bolt+cluster+ssc"@.subrange(14, 16)[0] != "+s"@[0]);
        assert("bolt+cluster+ssc"@.subrange(12, 16)[3] != "+ssl"@[3]);
        assert("bolt+cluster+ssc"@.subrange(12, 16) =~= "+ssc"@);
        assert("bolt+cluster+ssc"@.subrange(12, 16)[1] != "+gms"@[1]);
        assert("bolt+cluster+ssc"@.subrange(10, 16)[0] != "+gmssl"@[0]);
        assert("bolt+cluster+ssc"@.subrange(10, 16)[0] != "+gmssc"@[0]);
        assert("bolt+cluster+ssc"@.subrange(13, 16) =~= "ssc"@);
    }
    if i == 10 {
        reveal_strlit("bolt+cluster+gmssl");
        assert("bolt+cluster+gmssl"@.subrange(0, 12) =~= "bolt+cluster"@);
        assert("bolt+cluster+gmssl"@.subrange(0, 5)[0] != "neo4j"@[0]);
        assert("bolt+cluster+gmssl"@.subrange(16, 18)[0] != "+s"@[0]);
        assert("bolt+cluster+gmssl"@.subrange(14, 18)[0] != "+ssl"@[0]);
        assert("bolt+cluster+gmssl"@.subrange(14, 18)[0] != "+ssc"@[0]);
        assert("bolt+cluster+gmssl"@.subrange(14, 18)[0] != "+gms"@[0]);
        assert("bolt+cluster+gmssl"@.subrange(12, 18) =~= "+gmssl"@);
        assert("bolt+cluster+gmssl"@.subrange(12, 18)[5] != "+gmssc"@[5]);
        assert("bolt+cluster+gmssl"@.subrange(15, 18)[2] != "ssc"@[2]);
    }
    if i == 11 {
        reveal_strlit("bolt+cluster+gmssc");
        assert("bolt+cluster+gmssc"@.subrange(0, 12) =~= "bolt+cluster"@);
        assert("bolt+cluster+gmssc"@.subrange(0, 5)[0] != "neo4j"@[0]);
        assert("bolt+cluster+gmssc"@.subrange(16, 18)[0] != "+s"@[0]);
        assert("bolt+cluster+gmssc"@.subrange(14, 18)[0] != "+ssl"@[0]);
        assert("bolt+cluster+gmssc"@.subrange(14, 18)[0] != "+ssc"@[0]);
        assert("bolt+cluster+gmssc"@.subrange(14, 18)[0] != "+gms"@[0]);
        assert("bolt+cluster+gmssc"@.subrange(12, 18)[5] != "+gmssl"@[5]);
        assert("bolt+cluster+gmssc"@.subrange(12, 18) =~= "+gmssc"@);
        assert("bolt+cluster+gmssc"@.subrange(15, 18) =~= "ssc"@);
    }
    if i == 12 {
        reveal_strlit("neo4j");
        assert("neo4j"@.subrange(0, 5) =~= "neo4j"@);
        assert("neo4j"@.subrange(3, 5)[0] != "+s"@[0]);
        assert("neo4j"@.subrange(1, 5)[0] != "+ssl"@[0]);
        assert("neo4j"@.subrange(1, 5)[0] != "+ssc"@[0]);
        assert("neo4j"@.subrange(1, 5)[0] != "+gms"@[0]);
        assert("neo4j"@.subrange(2, 5)[0] != "ssc"@[0]);
    }
    if i == 13 {
        reveal_strlit("neo4j+s");
        assert("neo4j+s"@.subrange(0, 5) =~= "neo4j"@);
        assert("neo4j+s"@.subrange(5, 7) =~= "+s"@);
        assert("neo4j+s"@.subrange(3, 7)[0] != "+ssl"@[0]);
        assert("neo4j+s"@.subrange(3, 7)[0] != "+ssc"@[0]);
        assert("neo4j+s"@.subrange(3, 7)[0] != "+gms"@[0]);
        assert("neo4j+s"@.subrange(1, 7)[0] != "+gmssl"@[0]);
        assert("neo4j+s"@.subrange(1, 7)[0] != "+gmssc"@[0]);
        assert("neo4j+s"@.subrange(4, 7)[0] != "ssc"@[0]);
    }
    if i == 14 {
        reveal_strlit("neo4j+ssl");
        assert("neo4j+ssl"@.subrange(0, 5) =~= "neo4j"@);
        assert("neo4j+ssl"@.subrange(7, 9)[0] != "+s"@[0]);
        assert("neo4j+ssl"@.subrange(5, 9) =~= "+ssl"@);
        assert("neo4j+ssl"@.subrange(5, 9)[3] != "+ssc"@[3]);
        assert("neo4j+ssl"@.subrange(5, 9)[1] != "+gms"@[1]);
        assert("neo4j+ssl"@.subrange(3, 9)[0] != "+gmssl"@[0]);
        assert("neo4j+ssl"@.subrange(3, 9)[0] != "+gmssc"@[0]);
        assert("neo4j+ssl"@.subrange(6, 9)[2] != "ssc"@[2]);
    }
    if i == 15 {
        reveal_strlit("neo4j+ssc");
        assert("neo4j+ssc"@.subrange(0, 5) =~= "neo4j"@);
        assert("neo4j+ssc"@.subrange(7, 9)[0] != "+s"@[0]);
        assert("neo4j+ssc"@.subrange(5, 9)[3] != "+ssl"@[3]);
        assert("neo4j+ssc"@.subrange(5, 9) =~= "+ssc"@);
        assert("neo4j+ssc"@.subrange(5, 9)[1] != "+gms"@[1]);
        assert("neo4j+ssc"@.subrange(3, 9)[0] != "+gmssl"@[0]);
        assert("neo4j+ssc"@.subrange(3, 9)[0] != "+gmssc"@[0]);
        assert("neo4j+ssc"@.subrange(6, 9) =~= "ssc"@);
    }
}

/// Every scheme that looks up means what its name says: routing for
/// `bolt+cluster*` and `neo4j*`, encryption for the TLS (`+s`, `+ssl`,
/// `+ssc`) and TLCP (`+gms`, `+gmssl`, `+gmssc`) suffixes, TLCP for the
/// latter, and certificate validation for the encrypted schemes that are
/// not self-signed (`ssc`).
pub proof fn lemma_lookup_meaning_follows_name(scheme: Seq<char>)
    ensures
        spec_lookup(scheme) matches Some(info) ==> info.scheme == lookup_key(scheme)
            && meaning_follows_name(info),
{
    lemma_lookup_table_entry(scheme);
    if spec_lookup(scheme) is Some {
        let info = spec_lookup(scheme)->0;
        let i = choose|i: int| 0 <= i < scheme_table().len() && scheme_table()[i] == info;
        lemma_row_meaning(i);
    }
}

} // verus!
