//! The bright-star catalogue: one star per line of fixed-width text, and the
//! table of stars by catalogue number that the lines build.
//!
//! A line holds its fields in fixed columns, counted in bytes from 0:
//!
//! | columns    | field                                   |
//! |------------|-----------------------------------------|
//! | 0 to 3     | catalogue number                        |
//! | 4 to 13    | name                                    |
//! | 75 to 76   | right ascension, hours                  |
//! | 77 to 78   | right ascension, minutes                |
//! | 79 to 82   | right ascension, seconds (real)         |
//! | 83 to 85   | declination, degrees                    |
//! | 86 to 87   | declination, minutes                    |
//! | 88 to 89   | declination, seconds                    |
//! | 102 to 106 | magnitude (real)                        |
//! | 148 to 153 | proper motion in right ascension (real) |
//! | 154 to 159 | proper motion in declination (real)     |
//!
//! Each field is read without the white space around it. A line shorter than
//! 160 bytes, or one with a field that is no number, ends the load: no table
//! is returned. The one exception is the degrees of the declination, which
//! count as 0 where the field is no number. The sign of the declination is
//! not read.

use crate::text::{column, parse_real, parse_unsigned, real_of, trim, unsigned_of, Real};
use std::collections::HashMap;
use vstd::prelude::*;
use vstd::slice::{slice_subrange, slice_to_vec};

verus! {

broadcast use vstd::std_specs::hash::group_hash_axioms;

/// Bytes that a line must at least have: the end of its last field.
pub const LINE_WIDTH: usize = 160;

/// The fields of a line that have to be numbers.
#[derive(Clone, Copy, Debug, PartialEq, Eq)]
pub enum Field {
    Identifier,
    RaHour,
    RaMinute,
    RaSecond,
    DecMinute,
    DecSecond,
    ProperMotionRa,
    ProperMotionDec,
    Magnitude,
}

/// Why a line gives no star.
#[derive(Clone, Copy, Debug, PartialEq, Eq)]
pub enum LineError {
    /// The line has fewer than 160 bytes.
    TooShort,
    /// The field is no number. Of several such fields the first is named, in
    /// the order of [`Field`].
    NotNumeric(Field),
}

/// Why a load gave no table: the first line that gives no star, counted from
/// 0, and what is wrong with it.
#[derive(Clone, Copy, Debug, PartialEq, Eq)]
pub struct LoadError {
    pub line: usize,
    pub cause: LineError,
}

/// A star of the catalogue.
///
/// Its right ascension, in seconds of time, is `ra_whole_seconds` and
/// `ra_second` together. Its declination, in degrees, is `dec_degree` and
/// `dec_arcseconds` over 3600 together.
#[derive(Clone, Debug, PartialEq, Eq)]
pub struct Star {
    /// Name, without the white space around it.
    pub name: Vec<u8>,
    /// Hours and minutes of the right ascension, in seconds of time.
    pub ra_whole_seconds: u64,
    /// Seconds of the right ascension.
    pub ra_second: Real,
    /// Degrees of the declination.
    pub dec_degree: u32,
    /// Minutes and seconds of the declination, in seconds of arc.
    pub dec_arcseconds: u64,
    /// Proper motion in right ascension, in seconds a year.
    pub propermotion_ra: Real,
    /// Proper motion in declination, in seconds of arc a year.
    pub propermotion_dec: Real,
    /// Visual magnitude.
    pub magnitude: Real,
}

/// What a [`Star`] holds.
pub ghost struct StarView {
    pub name: Seq<u8>,
    pub ra_whole_seconds: int,
    pub ra_second: Real,
    pub dec_degree: int,
    pub dec_arcseconds: int,
    pub propermotion_ra: Real,
    pub propermotion_dec: Real,
    pub magnitude: Real,
}

impl View for Star {
    type V = StarView;

    open spec fn view(&self) -> StarView {
        StarView {
            name: self.name@,
            ra_whole_seconds: self.ra_whole_seconds as int,
            ra_second: self.ra_second,
            dec_degree: self.dec_degree as int,
            dec_arcseconds: self.dec_arcseconds as int,
            propermotion_ra: self.propermotion_ra,
            propermotion_dec: self.propermotion_dec,
            magnitude: self.magnitude,
        }
    }
}

/// The first field of `line` that has to be a number and is none.
pub open spec fn first_bad_field(line: Seq<u8>) -> Option<Field> {
    if unsigned_of(column(line, 0, 4)) is None {
        Some(Field::Identifier)
    } else if unsigned_of(column(line, 75, 77)) is None {
        Some(Field::RaHour)
    } else if unsigned_of(column(line, 77, 79)) is None {
        Some(Field::RaMinute)
    } else if real_of(column(line, 79, 83)) is None {
        Some(Field::RaSecond)
    } else if unsigned_of(column(line, 86, 88)) is None {
        Some(Field::DecMinute)
    } else if unsigned_of(column(line, 88, 90)) is None {
        Some(Field::DecSecond)
    } else if real_of(column(line, 148, 154)) is None {
        Some(Field::ProperMotionRa)
    } else if real_of(column(line, 154, 160)) is None {
        Some(Field::ProperMotionDec)
    } else if real_of(column(line, 102, 107)) is None {
        Some(Field::Magnitude)
    } else {
        None
    }
}

/// Why `line` gives no star; `None` where it gives one.
pub open spec fn line_error(line: Seq<u8>) -> Option<LineError> {
    if line.len() < 160 {
        Some(LineError::TooShort)
    } else {
        match first_bad_field(line) {
            Some(field) => Some(LineError::NotNumeric(field)),
            None => None,
        }
    }
}

/// The catalogue number of the star on `line`.
pub open spec fn identifier_of(line: Seq<u8>) -> u32 {
    unsigned_of(column(line, 0, 4)).unwrap()
}

/// The degrees of the declination on `line`: 0 where the field is no number.
pub open spec fn dec_degree_of(line: Seq<u8>) -> int {
    match unsigned_of(column(line, 83, 86)) {
        Some(degrees) => degrees as int,
        None => 0,
    }
}

/// The star on `line`, for a line without error.
pub open spec fn star_of(line: Seq<u8>) -> StarView {
    StarView {
        name: column(line, 4, 14),
        ra_whole_seconds: unsigned_of(column(line, 75, 77)).unwrap() * 3600 + unsigned_of(
            column(line, 77, 79),
        ).unwrap() * 60,
        ra_second: real_of(column(line, 79, 83)).unwrap(),
        dec_degree: dec_degree_of(line),
        dec_arcseconds: unsigned_of(column(line, 86, 88)).unwrap() * 60 + unsigned_of(
            column(line, 88, 90),
        ).unwrap(),
        propermotion_ra: real_of(column(line, 148, 154)).unwrap(),
        propermotion_dec: real_of(column(line, 154, 160)).unwrap(),
        magnitude: real_of(column(line, 102, 107)).unwrap(),
    }
}

/// The table that `lines` build, each without error: the table of the lines
/// before the last, with the star of the last line put under its number in
/// place of any star that stood there.
pub open spec fn catalog_of(lines: Seq<Vec<u8>>) -> Map<u32, StarView>
    decreases lines.len(),
{
    if lines.len() == 0 {
        Map::empty()
    } else {
        catalog_of(lines.drop_last()).insert(
            identifier_of(lines.last()@),
            star_of(lines.last()@),
        )
    }
}

/// Whether `table` holds the stars of `stars`, under the same numbers.
pub open spec fn holds(table: Map<u32, Star>, stars: Map<u32, StarView>) -> bool {
    &&& table.dom() =~= stars.dom()
    &&& forall|id: u32| #[trigger] table.contains_key(id) ==> table[id]@ == stars[id]
}

/// Reads the unsigned integer in the columns from `from` up to `to`.
fn unsigned_column(line: &[u8], from: usize, to: usize) -> (r: Option<u32>)
    requires
        from <= to <= line@.len(),
    ensures
        r == unsigned_of(column(line@, from as int, to as int)),
{
    parse_unsigned(trim(slice_subrange(line, from, to)))
}

/// Reads the real number in the columns from `from` up to `to`.
fn real_column(line: &[u8], from: usize, to: usize) -> (r: Option<Real>)
    requires
        from <= to <= line@.len(),
    ensures
        r == real_of(column(line@, from as int, to as int)),
{
    parse_real(trim(slice_subrange(line, from, to)))
}

/// Reads one line of the catalogue: the star's number and the star.
pub fn parse_line(line: &[u8]) -> (r: Result<(u32, Star), LineError>)
    ensures
        match r {
            Ok((id, star)) => line_error(line@) is None && id == identifier_of(line@) && star@
                == star_of(line@),
            Err(e) => line_error(line@) == Some(e),
        },
{
    if line.len() < LINE_WIDTH {
        return Err(LineError::TooShort);
    }
    let id: u32 = match unsigned_column(line, 0, 4) {
        Some(v) => v,
        None => {
            return Err(LineError::NotNumeric(Field::Identifier));
        },
    };
    let name: Vec<u8> = slice_to_vec(trim(slice_subrange(line, 4, 14)));
    let ra_hour: u32 = match unsigned_column(line, 75, 77) {
        Some(v) => v,
        None => {
            return Err(LineError::NotNumeric(Field::RaHour));
        },
    };
    let ra_minute: u32 = match unsigned_column(line, 77, 79) {
        Some(v) => v,
        None => {
            return Err(LineError::NotNumeric(Field::RaMinute));
        },
    };
    let ra_second: Real = match real_column(line, 79, 83) {
        Some(v) => v,
        None => {
            return Err(LineError::NotNumeric(Field::RaSecond));
        },
    };
    let dec_degree: u32 = match unsigned_column(line, 83, 86) {
        Some(v) => v,
        None => 0,
    };
    let dec_minute: u32 = match unsigned_column(line, 86, 88) {
        Some(v) => v,
        None => {
            return Err(LineError::NotNumeric(Field::DecMinute));
        },
    };
    let dec_second: u32 = match unsigned_column(line, 88, 90) {
        Some(v) => v,
        None => {
            return Err(LineError::NotNumeric(Field::DecSecond));
        },
    };
    let propermotion_ra: Real = match real_column(line, 148, 154) {
        Some(v) => v,
        None => {
            return Err(LineError::NotNumeric(Field::ProperMotionRa));
        },
    };
    let propermotion_dec: Real = match real_column(line, 154, 160) {
        Some(v) => v,
        None => {
            return Err(LineError::NotNumeric(Field::ProperMotionDec));
        },
    };
    let magnitude: Real = match real_column(line, 102, 107) {
        Some(v) => v,
        None => {
            return Err(LineError::NotNumeric(Field::Magnitude));
        },
    };
    let star = Star {
        name,
        ra_whole_seconds: ra_hour as u64 * 3600 + ra_minute as u64 * 60,
        ra_second,
        dec_degree,
        dec_arcseconds: dec_minute as u64 * 60 + dec_second as u64,
        propermotion_ra,
        propermotion_dec,
        magnitude,
    };
    Ok((id, star))
}

/// Builds the table of stars from the lines of a catalogue, in their order.
/// A star replaces one of the same number from a line before. The first line
/// that gives no star ends the load, and nothing of the table is returned.
pub fn load_bsc_stars(lines: &Vec<Vec<u8>>) -> (r: Result<HashMap<u32, Star>, LoadError>)
    ensures
        match r {
            Ok(table) => {
                &&& forall|j: int| 0 <= j < lines@.len() ==> line_error(#[trigger] lines@[j]@) is None
                &&& holds(table@, catalog_of(lines@))
            },
            Err(e) => {
                &&& e.line < lines@.len()
                &&& line_error(lines@[e.line as int]@) == Some(e.cause)
                &&& forall|j: int| 0 <= j < e.line ==> line_error(#[trigger] lines@[j]@) is None
            },
        },
{
    let mut table: HashMap<u32, Star> = HashMap::new();
    let n: usize = lines.len();
    let mut i: usize = 0;
    while i < n
        invariant
            n == lines@.len(),
            i <= n,
            forall|j: int| 0 <= j < i ==> line_error(#[trigger] lines@[j]@) is None,
            holds(table@, catalog_of(lines@.take(i as int))),
        decreases n - i,
    {
        match parse_line(lines[i].as_slice()) {
            Ok((id, star)) => {
                proof {
                    assert(lines@.take(i + 1).drop_last() =~= lines@.take(i as int));
                    assert(lines@.take(i + 1).last() == lines@[i as int]);
                }
                table.insert(id, star);
            },
            Err(cause) => {
                return Err(LoadError { line: i, cause });
            },
        }
        i += 1;
    }
    proof {
        assert(lines@.take(n as int) =~= lines@);
    }
    Ok(table)
}

/// A number stands in the table exactly where some line carries it.
pub proof fn table_numbers(lines: Seq<Vec<u8>>, id: u32)
    ensures
        catalog_of(lines).contains_key(id) <==> exists|j: int|
            0 <= j < lines.len() && identifier_of(#[trigger] lines[j]@) == id,
    decreases lines.len(),
{
    if lines.len() > 0 {
        let front = lines.drop_last();
        let last = lines.len() - 1;
        table_numbers(front, id);
        if catalog_of(lines).contains_key(id) {
            if identifier_of(lines[last]@) != id {
                let j = choose|j: int|
                    0 <= j < front.len() && identifier_of(#[trigger] front[j]@) == id;
                assert(front[j] == lines[j]);
            }
        }
        if exists|j: int| 0 <= j < lines.len() && identifier_of(#[trigger] lines[j]@) == id {
            let j = choose|j: int|
                0 <= j < lines.len() && identifier_of(#[trigger] lines[j]@) == id;
            if j < last {
                assert(front[j] == lines[j]);
            }
        }
    }
}

/// Of the lines that carry one number the last gives the star: a line that
/// no later line shares its number with stands in the table as it is.
pub proof fn last_line_wins(lines: Seq<Vec<u8>>, j: int)
    requires
        0 <= j < lines.len(),
        forall|k: int|
            j < k < lines.len() ==> identifier_of(#[trigger] lines[k]@) != identifier_of(
                lines[j]@,
            ),
    ensures
        catalog_of(lines).contains_key(identifier_of(lines[j]@)),
        catalog_of(lines)[identifier_of(lines[j]@)] == star_of(lines[j]@),
    decreases lines.len(),
{
    let last = lines.len() - 1;
    if j < last {
        let front = lines.drop_last();
        assert(front[j] == lines[j]);
        assert forall|k: int| j < k < front.len() implies identifier_of(#[trigger] front[k]@)
            != identifier_of(front[j]@) by {
            assert(front[k] == lines[k]);
        }
        last_line_wins(front, j);
        assert(identifier_of(lines[last]@) != identifier_of(lines[j]@));
    }
}

/// Two tables built from the same lines hold the same stars under the same
/// numbers, field for field.
pub proof fn same_lines_same_table(
    lines: Seq<Vec<u8>>,
    first: Map<u32, Star>,
    second: Map<u32, Star>,
)
    requires
        holds(first, catalog_of(lines)),
        holds(second, catalog_of(lines)),
    ensures
        first.dom() == second.dom(),
        forall|id: u32| #[trigger] first.contains_key(id) ==> first[id]@ == second[id]@,
{
}

/// Degrees of declination that are no number do not fail a line: whether the
/// line gives a star is up to its other fields, and the star then has 0
/// degrees of declination, with the minutes and seconds as they are written.
pub proof fn bad_dec_degree_counts_as_zero(line: Seq<u8>)
    requires
        unsigned_of(column(line, 83, 86)) is None,
    ensures
        star_of(line).dec_degree == 0,
        star_of(line).dec_arcseconds == unsigned_of(column(line, 86, 88)).unwrap() * 60
            + unsigned_of(column(line, 88, 90)).unwrap(),
        line.len() >= 160 && first_bad_field(line) is None ==> line_error(line) is None,
{
}

} // verus!
