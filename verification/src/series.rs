//! The closed allow-list of exportable telemetry columns.
//!
//! A series name arrives as untrusted text and, once validated, is
//! interpolated into a SQL statement as a column identifier. The only
//! safety barrier for that interpolation is this fixed enumeration:
//! a request's series text must match one column name exactly, or the
//! request is rejected.

use vstd::prelude::*;

verus! {

/// One exportable measurement column of the telemetry table.
#[derive(Clone, Copy, Debug, PartialEq, Eq, Structural)]
pub enum SeriesName {
    Charge,
    TensionBat,
    TensionPv1,
    TensionPv2,
    Temperature,
    CourantPv1,
    CourantPv2,
    EntreeEnergie24h,
    SortieEnergie24h,
    CourantEntreeAppareil,
    CourantChargeTotal,
    CourantConsommateur,
    CourantDechargeTotal,
}

impl SeriesName {
    /// The column identifier this series stands for, as text.
    pub open spec fn column_text(self) -> Seq<char> {
        match self {
            SeriesName::Charge => "charge"@,
            SeriesName::TensionBat => "tension_bat"@,
            SeriesName::TensionPv1 => "tension_pv1"@,
            SeriesName::TensionPv2 => "tension_pv2"@,
            SeriesName::Temperature => "temperature"@,
            SeriesName::CourantPv1 => "courant_pv1"@,
            SeriesName::CourantPv2 => "courant_pv2"@,
            SeriesName::EntreeEnergie24h => "entree_energie_24h"@,
            SeriesName::SortieEnergie24h => "sortie_energie_24h"@,
            SeriesName::CourantEntreeAppareil => "courant_entree_appareil"@,
            SeriesName::CourantChargeTotal => "courant_charge_total"@,
            SeriesName::CourantConsommateur => "courant_consommateur"@,
            SeriesName::CourantDechargeTotal => "courant_decharge_total"@,
        }
    }

    /// The column identifier this series stands for.
    pub fn column_name(self) -> (r: &'static str)
        ensures
            r@ == self.column_text(),
    {
        match self {
            SeriesName::Charge => "charge",
            SeriesName::TensionBat => "tension_bat",
            SeriesName::TensionPv1 => "tension_pv1",
            SeriesName::TensionPv2 => "tension_pv2",
            SeriesName::Temperature => "temperature",
            SeriesName::CourantPv1 => "courant_pv1",
            SeriesName::CourantPv2 => "courant_pv2",
            SeriesName::EntreeEnergie24h => "entree_energie_24h",
            SeriesName::SortieEnergie24h => "sortie_energie_24h",
            SeriesName::CourantEntreeAppareil => "courant_entree_appareil",
            SeriesName::CourantChargeTotal => "courant_charge_total",
            SeriesName::CourantConsommateur => "courant_consommateur",
            SeriesName::CourantDechargeTotal => "courant_decharge_total",
        }
    }
}

/// Which series, if any, the given text names: the text must equal one
/// column name of the allow-list exactly (case and length included).
pub open spec fn series_from_text(s: Seq<char>) -> Option<SeriesName> {
    if s == SeriesName::Charge.column_text() {
        Some(SeriesName::Charge)
    } else if s == SeriesName::TensionBat.column_text() {
        Some(SeriesName::TensionBat)
    } else if s == SeriesName::TensionPv1.column_text() {
        Some(SeriesName::TensionPv1)
    } else if s == SeriesName::TensionPv2.column_text() {
        Some(SeriesName::TensionPv2)
    } else if s == SeriesName::Temperature.column_text() {
        Some(SeriesName::Temperature)
    } else if s == SeriesName::CourantPv1.column_text() {
        Some(SeriesName::CourantPv1)
    } else if s == SeriesName::CourantPv2.column_text() {
        Some(SeriesName::CourantPv2)
    } else if s == SeriesName::EntreeEnergie24h.column_text() {
        Some(SeriesName::EntreeEnergie24h)
    } else if s == SeriesName::SortieEnergie24h.column_text() {
        Some(SeriesName::SortieEnergie24h)
    } else if s == SeriesName::CourantEntreeAppareil.column_text() {
        Some(SeriesName::CourantEntreeAppareil)
    } else if s == SeriesName::CourantChargeTotal.column_text() {
        Some(SeriesName::CourantChargeTotal)
    } else if s == SeriesName::CourantConsommateur.column_text() {
        Some(SeriesName::CourantConsommateur)
    } else if s == SeriesName::CourantDechargeTotal.column_text() {
        Some(SeriesName::CourantDechargeTotal)
    } else {
        None
    }
}

/// No two series share a column identifier: the allow-list maps each
/// series to its own column.
pub proof fn lemma_column_text_injective(s1: SeriesName, s2: SeriesName)
    requires
        s1 != s2,
    ensures
        s1.column_text() != s2.column_text(),
{
    reveal_strlit("charge");
    reveal_strlit("tension_bat");
    reveal_strlit("tension_pv1");
    reveal_strlit("tension_pv2");
    reveal_strlit("temperature");
    reveal_strlit("courant_pv1");
    reveal_strlit("courant_pv2");
    reveal_strlit("entree_energie_24h");
    reveal_strlit("sortie_energie_24h");
    reveal_strlit("courant_entree_appareil");
    reveal_strlit("courant_charge_total");
    reveal_strlit("courant_consommateur");
    reveal_strlit("courant_decharge_total");
    let c1 = s1.column_text();
    let c2 = s2.column_text();
    if c1 == c2 {
        // Any two distinct columns differ in length or in one of the
        // characters at positions 0, 2, 8, 9 or 10.
        assert(c1.len() == c2.len());
        if c1.len() >= 11 {
            assert(c1[0] == c2[0]);
            assert(c1[2] == c2[2]);
            assert(c1[8] == c2[8]);
            assert(c1[9] == c2[9]);
            assert(c1[10] == c2[10]);
        }
        assert(false);
    }
}

/// Every allow-listed series is accepted under exactly its own column
/// name: parsing the column text of a series gives that series back.
pub proof fn lemma_series_round_trip(s: SeriesName)
    ensures
        series_from_text(s.column_text()) == Some(s),
{
    assert forall|o: SeriesName| o != s implies s.column_text() != o.column_text() by {
        lemma_column_text_injective(s, o);
    }
}

/// Character-by-character equality of two string slices.
fn str_eq(a: &str, b: &str) -> (r: bool)
    ensures
        r == (a@ == b@),
{
    let a_len = a.unicode_len();
    let b_len = b.unicode_len();
    if a_len != b_len {
        return false;
    }
    let mut i: usize = 0;
    while i < a_len
        invariant
            i <= a_len,
            a_len == a@.len(),
            a_len == b@.len(),
            forall|j: int| 0 <= j < i ==> a@[j] == b@[j],
        decreases a_len - i,
    {
        if a.get_char(i) != b.get_char(i) {
            return false;
        }
        i = i + 1;
    }
    proof {
        assert(a@ =~= b@);
    }
    true
}

/// Parse untrusted series text against the allow-list. Anything that is
/// not exactly one of the thirteen column names is refused.
pub fn parse_series(s: &str) -> (r: Option<SeriesName>)
    ensures
        r == series_from_text(s@),
{
    if str_eq(s, "charge") {
        Some(SeriesName::Charge)
    } else if str_eq(s, "tension_bat") {
        Some(SeriesName::TensionBat)
    } else if str_eq(s, "tension_pv1") {
        Some(SeriesName::TensionPv1)
    } else if str_eq(s, "tension_pv2") {
        Some(SeriesName::TensionPv2)
    } else if str_eq(s, "temperature") {
        Some(SeriesName::Temperature)
    } else if str_eq(s, "courant_pv1") {
        Some(SeriesName::CourantPv1)
    } else if str_eq(s, "courant_pv2") {
        Some(SeriesName::CourantPv2)
    } else if str_eq(s, "entree_energie_24h") {
        Some(SeriesName::EntreeEnergie24h)
    } else if str_eq(s, "sortie_energie_24h") {
        Some(SeriesName::SortieEnergie24h)
    } else if str_eq(s, "courant_entree_appareil") {
        Some(SeriesName::CourantEntreeAppareil)
    } else if str_eq(s, "courant_charge_total") {
        Some(SeriesName::CourantChargeTotal)
    } else if str_eq(s, "courant_consommateur") {
        Some(SeriesName::CourantConsommateur)
    } else if str_eq(s, "courant_decharge_total") {
        Some(SeriesName::CourantDechargeTotal)
    } else {
        None
    }
}

} // verus!
