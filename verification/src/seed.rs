//! The seed of the catalog: tabular data with the file name, the English
//! name and description and the Russian name and description of each card.

use crate::dealer::cards_view;
use crate::process::{Card, CardView};
use vstd::prelude::*;

verus! {

/// The fields of a record.
pub open spec fn record_view(record: Seq<String>) -> Seq<Seq<char>> {
    record.map_values(|field: String| field@)
}

/// The fields of each record.
pub open spec fn records_view(records: Seq<Vec<String>>) -> Seq<Seq<Seq<char>>> {
    records.map_values(|record: Vec<String>| record_view(record@))
}

/// The number of fields that a record of the seed must have.
pub const SEED_FIELDS: usize = 5;

/// The card that a record describes, under the identifier `id`. Nothing is
/// cached for a card that was just imported.
pub open spec fn seed_card(id: i32, record: Seq<Seq<char>>) -> CardView {
    CardView {
        id,
        filename: record[0],
        name_en: record[1],
        description_en: record[2],
        name_ru: record[3],
        description_ru: record[4],
        telegram_file_id_en: None,
        telegram_file_id_ru: None,
    }
}

/// Why the seed could not be imported. Nothing is imported in any of these cases.
#[derive(Debug, Clone, Copy, PartialEq, Eq, Structural)]
pub enum SeedError {
    /// The data is not well-formed tabular data.
    Unreadable,
    /// There are more records than identifiers.
    TooManyRecords,
    /// A record has fewer than five fields.
    ShortRecord,
}

/// The catalog that the records describe, identifiers counting up from one
/// in the order of the records, or why there is none.
pub open spec fn seeded(records: Seq<Seq<Seq<char>>>) -> Result<Seq<CardView>, SeedError> {
    if records.len() > i32::MAX {
        Err(SeedError::TooManyRecords)
    } else if exists|i: int| 0 <= i < records.len() && (#[trigger] records[i]).len() < SEED_FIELDS {
        Err(SeedError::ShortRecord)
    } else {
        Ok(Seq::new(records.len(), |i: int| seed_card((i + 1) as i32, records[i])))
    }
}

/// The catalog of an optional list of cards.
pub open spec fn catalog_view(cards: Result<Vec<Card>, SeedError>) -> Result<
    Seq<CardView>,
    SeedError,
> {
    match cards {
        Ok(c) => Ok(cards_view(c@)),
        Err(e) => Err(e),
    }
}

/// Builds the catalog from the records of the seed: all of it or nothing.
pub fn seed_cards(records: &Vec<Vec<String>>) -> (cards: Result<Vec<Card>, SeedError>)
    ensures
        catalog_view(cards) == seeded(records_view(records@)),
{
    if records.len() > i32::MAX as usize {
        return Err(SeedError::TooManyRecords);
    }
    let ghost all = records_view(records@);
    let mut cards: Vec<Card> = Vec::new();
    let mut i: usize = 0;
    while i < records.len()
        invariant
            i <= records.len() <= i32::MAX,
            all == records_view(records@),
            cards@.len() == i,
            forall|k: int| 0 <= k < i ==> (#[trigger] all[k]).len() >= SEED_FIELDS,
            forall|k: int|
                0 <= k < i ==> (#[trigger] cards@[k])@ == seed_card((k + 1) as i32, all[k]),
        decreases records.len() - i,
    {
        let record = &records[i];
        if record.len() < SEED_FIELDS {
            proof {
                assert(all[i as int].len() < SEED_FIELDS);
            }
            return Err(SeedError::ShortRecord);
        }
        let card = Card {
            id: (i + 1) as i32,
            filename: record[0].clone(),
            name_en: record[1].clone(),
            description_en: record[2].clone(),
            name_ru: record[3].clone(),
            description_ru: record[4].clone(),
            telegram_file_id_en: None,
            telegram_file_id_ru: None,
        };
        proof {
            assert(all[i as int] == record_view(record@));
        }
        cards.push(card);
        i += 1;
    }
    proof {
        assert(cards_view(cards@) =~= seeded(all)->Ok_0);
    }
    Ok(cards)
}

/// The error type of the `csv` crate; nothing is read from it.
#[verifier::external_type_specification]
#[verifier::external_body]
pub struct ExCsvError(csv::Error);

/// The records that a reader of the `csv` crate, made by
/// `csv::Reader::from_reader` with its default settings, yields from `data`:
/// the fields of each record after the header line, as text. `None` where
/// the reader reports an error.
pub uninterp spec fn csv_records(data: Seq<u8>) -> Option<Seq<Seq<Seq<char>>>>;

/// `csv::Reader::from_reader` on the bytes, then `records()` up to the first
/// error, each field copied into a string. Trusted: what comes back is what
/// `csv_records` names, an error exactly where that name is `None`.
#[verifier::external_body]
fn read_records(data: &[u8]) -> (records: Result<Vec<Vec<String>>, csv::Error>)
    ensures
        match records {
            Ok(r) => csv_records(data@) == Some(records_view(r@)),
            Err(_) => csv_records(data@) is None,
        },
{
    let mut reader = csv::Reader::from_reader(data);
    let mut records: Vec<Vec<String>> = Vec::new();
    for result in reader.records() {
        records.push(result?.iter().map(String::from).collect());
    }
    Ok(records)
}

/// The catalog that the seed `data` describes, or why there is none.
pub open spec fn seed_of(data: Seq<u8>) -> Result<Seq<CardView>, SeedError> {
    match csv_records(data) {
        Some(records) => seeded(records),
        None => Err(SeedError::Unreadable),
    }
}

/// Reads the seed of the catalog: comma-separated records under a header
/// line. The cards get the identifiers one, two and so on in the order of
/// the records.
pub fn read_seed(data: &[u8]) -> (cards: Result<Vec<Card>, SeedError>)
    ensures
        catalog_view(cards) == seed_of(data@),
{
    match read_records(data) {
        Ok(records) => seed_cards(&records),
        Err(_) => Err(SeedError::Unreadable),
    }
}

} // verus!
