//! The word and kanji corpora, read from CSV text.

use vstd::prelude::*;

use crate::models::{texts, LobbyCreationError};

verus! {

/// What csv's reader, with its default settings, makes of `text`: the fields
/// of every record after the header row, or `None` when the text is not
/// valid CSV.
pub uninterp spec fn csv_rows(text: Seq<char>) -> Option<Seq<Seq<Seq<char>>>>;

/// The text of every field of every row.
pub open spec fn rows_text(rows: Seq<Vec<String>>) -> Seq<Seq<Seq<char>>> {
    rows.map_values(|row: Vec<String>| texts(row@))
}

/// Relies on `csv::Reader::from_reader` over the text's bytes, with default
/// settings, and on `Reader::records`: the records after the header row,
/// each as its fields, or the reader's error, which depends on the text alone.
#[verifier::external_body]
fn read_rows(text: &str) -> (r: Option<Vec<Vec<String>>>)
    ensures
        match r {
            Some(rows) => csv_rows(text@) == Some(rows_text(rows@)),
            None => csv_rows(text@) is None,
        },
{
    let mut reader = csv::Reader::from_reader(text.as_bytes());
    let rows: Result<Vec<Vec<String>>, csv::Error> = reader
        .records()
        .map(|record| record.map(|fields| fields.iter().map(|f| f.to_string()).collect()))
        .collect();
    rows.ok()
}

/// The first field of each row, in order, with "N/A" for a row without one.
pub open spec fn first_fields_or_na(rows: Seq<Seq<Seq<char>>>) -> Seq<Seq<char>> {
    rows.map_values(|row: Seq<Seq<char>>| if row.len() > 0 { row[0] } else { "N/A"@ })
}

/// The first field of each row that has one, in order.
pub open spec fn first_fields(rows: Seq<Seq<Seq<char>>>) -> Seq<Seq<char>>
    decreases rows.len(),
{
    if rows.len() == 0 {
        Seq::empty()
    } else if rows.last().len() > 0 {
        first_fields(rows.drop_last()).push(rows.last()[0])
    } else {
        first_fields(rows.drop_last())
    }
}

/// The word list held in CSV text: the first field of every record, "N/A"
/// standing for a record without one.
pub fn vectorize_word_list(text: &str) -> (r: Result<Vec<String>, LobbyCreationError>)
    ensures
        match r {
            Ok(words) => csv_rows(text@) matches Some(rows) && texts(words@) == first_fields_or_na(
                rows,
            ),
            Err(e) => csv_rows(text@) is None && e == LobbyCreationError::FailedToVectorizeWordListError,
        },
{
    let rows = match read_rows(text) {
        Some(rows) => rows,
        None => {
            return Err(LobbyCreationError::FailedToVectorizeWordListError);
        },
    };
    let ghost all = rows_text(rows@);
    let mut words: Vec<String> = Vec::new();
    let mut i: usize = 0;
    while i < rows.len()
        invariant
            i <= rows.len(),
            all == rows_text(rows@),
            words@.len() == i,
            texts(words@) == first_fields_or_na(all.take(i as int)),
        decreases rows.len() - i,
    {
        let row = &rows[i];
        let w = if row.len() > 0 {
            row[0].clone()
        } else {
            "N/A".to_string()
        };
        let ghost before = words@;
        words.push(w);
        proof {
            assert(all[i as int] == texts(row@));
            assert(all.take(i + 1) == all.take(i as int).push(all[i as int]));
            assert forall|j: int| 0 <= j < i implies #[trigger] texts(words@)[j]
                == first_fields_or_na(all.take(i + 1))[j] by {
                assert(texts(before)[j] == first_fields_or_na(all.take(i as int))[j]);
            }
            assert(texts(words@) =~= first_fields_or_na(all.take(i + 1)));
        }
        i = i + 1;
    }
    proof {
        assert(all.take(rows@.len() as int) == all);
    }
    Ok(words)
}

/// The kanji held in CSV texts, one text after the other: the first field
/// of every record that has one.
pub fn vectorize_joyo_kanji(sources: &Vec<String>) -> (r: Result<Vec<String>, LobbyCreationError>)
    ensures
        match r {
            Ok(kanji) => exists|parsed: Seq<Seq<Seq<Seq<char>>>>|
                {
                    &&& parsed.len() == sources@.len()
                    &&& forall|j: int|
                        0 <= j < sources@.len() ==> csv_rows(#[trigger] sources@[j]@) == Some(
                            parsed[j],
                        )
                    &&& texts(kanji@) == first_fields(parsed.flatten())
                },
            Err(e) => {
                &&& exists|j: int| 0 <= j < sources@.len() && csv_rows(#[trigger] sources@[j]@) is None
                &&& e == LobbyCreationError::FailedToVectorizeKanjiListError
            },
        },
{
    let mut kanji: Vec<String> = Vec::new();
    let ghost mut parsed: Seq<Seq<Seq<Seq<char>>>> = Seq::empty();
    let mut s: usize = 0;
    while s < sources.len()
        invariant
            s <= sources.len(),
            parsed.len() == s,
            forall|j: int| 0 <= j < s ==> csv_rows(#[trigger] sources@[j]@) == Some(parsed[j]),
            texts(kanji@) == first_fields(parsed.flatten()),
        decreases sources.len() - s,
    {
        let rows = match read_rows(sources[s].as_str()) {
            Some(rows) => rows,
            None => {
                return Err(LobbyCreationError::FailedToVectorizeKanjiListError);
            },
        };
        let ghost all = rows_text(rows@);
        let ghost start = parsed.flatten();
        let mut i: usize = 0;
        while i < rows.len()
            invariant
                i <= rows.len(),
                all == rows_text(rows@),
                texts(kanji@) == first_fields(start + all.take(i as int)),
            decreases rows.len() - i,
        {
            let row = &rows[i];
            proof {
                assert(all[i as int] == texts(row@));
                assert(start + all.take(i + 1) == (start + all.take(i as int)).push(all[i as int]));
                assert((start + all.take(i + 1)).drop_last() == start + all.take(i as int));
            }
            if row.len() > 0 {
                let ghost before = kanji@;
                kanji.push(row[0].clone());
                proof {
                    let fs = first_fields(start + all.take(i + 1));
                    assert forall|j: int| 0 <= j < before.len() implies #[trigger] texts(kanji@)[j]
                        == fs[j] by {
                        assert(texts(before)[j] == first_fields(start + all.take(i as int))[j]);
                    }
                    assert(texts(kanji@) =~= fs);
                }
            }
            i = i + 1;
        }
        proof {
            assert(all.take(rows@.len() as int) == all);
            parsed.lemma_flatten_push(all);
            parsed = parsed.push(all);
        }
        s = s + 1;
    }
    Ok(kanji)
}

} // verus!
