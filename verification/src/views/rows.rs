//! The rows that rating screens record: one per sample and one for the
//! decision of record.

use vstd::prelude::*;
use vstd::string::*;
use crate::sampler::DataPoint;
use crate::text::{
    count_char,
    decimal,
    lemma_count_char_concat,
    lemma_decimal_holds_digits,
    lemma_separators_are_no_digits,
    lemma_signed_decimal_holds_digits,
    push_decimal,
    push_signed_decimal,
    signed_decimal,
};

verus! {

/// The header of the dataset of a rating.
pub const RATING_HEADER: &'static str = "type,timestamp,value";

/// The value of a point as it is written: mirrored if `mirrored`.
pub open spec fn written_value(value: int, mirrored: bool) -> int {
    if mirrored {
        -value
    } else {
        value
    }
}

/// The row of one sample.
pub open spec fn decision_row(point: DataPoint, mirrored: bool) -> Seq<char> {
    "decision,"@ + decimal(point.timestamp as nat) + ","@ + signed_decimal(
        written_value(point.value as int, mirrored),
    ) + "\n"@
}

/// The rows of the first `n` samples of `points`, in order.
pub open spec fn decision_rows(points: Seq<DataPoint>, mirrored: bool, n: nat) -> Seq<char>
    decreases n,
{
    if n == 0 {
        Seq::empty()
    } else {
        decision_rows(points, mirrored, (n - 1) as nat) + decision_row(
            points[n - 1],
            mirrored,
        )
    }
}

/// The row of the decision of record.
pub open spec fn final_row(timestamp: nat, value: int) -> Seq<char> {
    "final,"@ + decimal(timestamp) + ","@ + signed_decimal(value) + "\n"@
}

/// Appends the row of one sample.
pub fn push_decision_row(out: &mut String, point: DataPoint, mirrored: bool)
    ensures
        final(out)@ == old(out)@ + decision_row(point, mirrored),
{
    out.append("decision,");
    push_decimal(out, point.timestamp);
    out.append(",");
    let value: i64 = if mirrored {
        -(point.value as i64)
    } else {
        point.value as i64
    };
    push_signed_decimal(out, value);
    out.append("\n");
    assert(final(out)@ =~= old(out)@ + decision_row(point, mirrored));
}

/// Appends the rows of all samples of `points`, in order.
pub fn push_decision_rows(out: &mut String, points: &Vec<DataPoint>, mirrored: bool)
    ensures
        final(out)@ == old(out)@ + decision_rows(points@, mirrored, points@.len()),
{
    let mut i: usize = 0;
    while i < points.len()
        invariant
            i <= points.len(),
            out@ == old(out)@ + decision_rows(points@, mirrored, i as nat),
        decreases points.len() - i,
    {
        push_decision_row(out, points[i], mirrored);
        i = i + 1;
        assert(out@ =~= old(out)@ + decision_rows(points@, mirrored, i as nat));
    }
}

/// Appends the row of the decision of record.
pub fn push_final_row(out: &mut String, timestamp: u64, value: i64)
    ensures
        final(out)@ == old(out)@ + final_row(timestamp as nat, value as int),
{
    out.append("final,");
    push_decimal(out, timestamp);
    out.append(",");
    push_signed_decimal(out, value);
    out.append("\n");
    assert(final(out)@ =~= old(out)@ + final_row(timestamp as nat, value as int));
}

/// How many lines `text` has: one for each line feed.
pub open spec fn line_count(text: Seq<char>) -> nat {
    count_char(text, '\n')
}

/// How many commas `text` has.
pub open spec fn comma_count(text: Seq<char>) -> nat {
    count_char(text, ',')
}

pub proof fn lemma_row_words()
    ensures
        comma_count("decision,"@) == 1,
        line_count("decision,"@) == 0,
        comma_count("final,"@) == 1,
        line_count("final,"@) == 0,
        comma_count(","@) == 1,
        line_count(","@) == 0,
        comma_count("\n"@) == 0,
        line_count("\n"@) == 1,
{
    reveal_strlit("decision,");
    reveal_strlit("final,");
    reveal_strlit(",");
    reveal_strlit("\n");
    assert("decision,"@ =~= seq!['d', 'e', 'c', 'i', 's', 'i', 'o', 'n', ',']);
    assert("final,"@ =~= seq!['f', 'i', 'n', 'a', 'l', ',']);
    assert(","@ =~= seq![',']);
    assert("\n"@ =~= seq!['\n']);
    lemma_count_in_word(seq!['d', 'e', 'c', 'i', 's', 'i', 'o', 'n'], ',');
    lemma_count_in_word(seq!['d', 'e', 'c', 'i', 's', 'i', 'o', 'n'], '\n');
    lemma_count_in_word(seq!['f', 'i', 'n', 'a', 'l'], ',');
    lemma_count_in_word(seq!['f', 'i', 'n', 'a', 'l'], '\n');
    lemma_count_in_word(Seq::empty(), ',');
    lemma_count_in_word(Seq::empty(), '\n');
    assert(seq!['d', 'e', 'c', 'i', 's', 'i', 'o', 'n', ','].drop_last() =~= seq![
        'd',
        'e',
        'c',
        'i',
        's',
        'i',
        'o',
        'n',
    ]);
    assert(seq!['f', 'i', 'n', 'a', 'l', ','].drop_last() =~= seq!['f', 'i', 'n', 'a', 'l']);
    assert(seq![','].drop_last() =~= Seq::<char>::empty());
    assert(seq!['\n'].drop_last() =~= Seq::<char>::empty());
}

/// A character that is none of those of `word` does not occur in it.
pub proof fn lemma_count_in_word(word: Seq<char>, c: char)
    requires
        forall|i: int| 0 <= i < word.len() ==> word[i] != c,
    ensures
        count_char(word, c) == 0,
    decreases word.len(),
{
    if word.len() > 0 {
        lemma_count_in_word(word.drop_last(), c);
    }
}

/// The row of a sample is one line of three fields.
pub proof fn lemma_decision_row_shape(point: DataPoint, mirrored: bool)
    ensures
        line_count(decision_row(point, mirrored)) == 1,
        comma_count(decision_row(point, mirrored)) == 2,
{
    lemma_row_words();
    lemma_separators_are_no_digits();
    let a = "decision,"@;
    let b = decimal(point.timestamp as nat);
    let c = ","@;
    let d = signed_decimal(written_value(point.value as int, mirrored));
    let e = "\n"@;
    lemma_decimal_holds_digits(point.timestamp as nat, ',');
    lemma_decimal_holds_digits(point.timestamp as nat, '\n');
    lemma_signed_decimal_holds_digits(written_value(point.value as int, mirrored), ',');
    lemma_signed_decimal_holds_digits(written_value(point.value as int, mirrored), '\n');
    lemma_count_char_concat(a, b, ',');
    lemma_count_char_concat(a + b, c, ',');
    lemma_count_char_concat(a + b + c, d, ',');
    lemma_count_char_concat(a + b + c + d, e, ',');
    lemma_count_char_concat(a, b, '\n');
    lemma_count_char_concat(a + b, c, '\n');
    lemma_count_char_concat(a + b + c, d, '\n');
    lemma_count_char_concat(a + b + c + d, e, '\n');
}

/// The row of the decision is one line of three fields.
pub proof fn lemma_final_row_shape(timestamp: nat, value: int)
    ensures
        line_count(final_row(timestamp, value)) == 1,
        comma_count(final_row(timestamp, value)) == 2,
{
    lemma_row_words();
    lemma_separators_are_no_digits();
    let a = "final,"@;
    let b = decimal(timestamp);
    let c = ","@;
    let d = signed_decimal(value);
    let e = "\n"@;
    lemma_decimal_holds_digits(timestamp, ',');
    lemma_decimal_holds_digits(timestamp, '\n');
    lemma_signed_decimal_holds_digits(value, ',');
    lemma_signed_decimal_holds_digits(value, '\n');
    lemma_count_char_concat(a, b, ',');
    lemma_count_char_concat(a + b, c, ',');
    lemma_count_char_concat(a + b + c, d, ',');
    lemma_count_char_concat(a + b + c + d, e, ',');
    lemma_count_char_concat(a, b, '\n');
    lemma_count_char_concat(a + b, c, '\n');
    lemma_count_char_concat(a + b + c, d, '\n');
    lemma_count_char_concat(a + b + c + d, e, '\n');
}

/// The rows of `n` samples are `n` lines of three fields each.
pub proof fn lemma_decision_rows_shape(points: Seq<DataPoint>, mirrored: bool, n: nat)
    ensures
        line_count(decision_rows(points, mirrored, n)) == n,
        comma_count(decision_rows(points, mirrored, n)) == 2 * n,
    decreases n,
{
    if n > 0 {
        lemma_decision_rows_shape(points, mirrored, (n - 1) as nat);
        lemma_decision_row_shape(points[n - 1], mirrored);
        lemma_count_char_concat(
            decision_rows(points, mirrored, (n - 1) as nat),
            decision_row(points[n - 1], mirrored),
            ',',
        );
        lemma_count_char_concat(
            decision_rows(points, mirrored, (n - 1) as nat),
            decision_row(points[n - 1], mirrored),
            '\n',
        );
    }
}

/// The decision as it is recorded: that of record, or zero at time zero
/// while there is none.
pub open spec fn recorded_decision(terminal: Option<DataPoint>) -> DataPoint {
    match terminal {
        Some(point) => point,
        None => DataPoint { timestamp: 0, value: 0 },
    }
}

/// The rows of a rating, one by one: the row of each sample, in order, and
/// then the row of the decision. All values are mirrored if `mirrored`.
pub open spec fn rating_rows(points: Seq<DataPoint>, mirrored: bool, decision: DataPoint) -> Seq<
    Seq<char>,
> {
    Seq::new(
        points.len() + 1,
        |i: int|
            if i < points.len() {
                decision_row(points[i], mirrored)
            } else {
                final_row(
                    decision.timestamp as nat,
                    written_value(decision.value as int, mirrored),
                )
            },
    )
}

/// The first `n` of `rows`, one after the other.
pub open spec fn joined(rows: Seq<Seq<char>>, n: nat) -> Seq<char>
    decreases n,
{
    if n == 0 {
        Seq::empty()
    } else {
        joined(rows, (n - 1) as nat) + rows[n - 1]
    }
}

/// The rows of a rating as one text.
pub open spec fn rating_text(points: Seq<DataPoint>, mirrored: bool, decision: DataPoint) -> Seq<
    char,
> {
    decision_rows(points, mirrored, points.len()) + final_row(
        decision.timestamp as nat,
        written_value(decision.value as int, mirrored),
    )
}

proof fn lemma_joined_samples(
    points: Seq<DataPoint>,
    mirrored: bool,
    decision: DataPoint,
    n: nat,
)
    requires
        n <= points.len(),
    ensures
        joined(rating_rows(points, mirrored, decision), n) == decision_rows(points, mirrored, n),
    decreases n,
{
    if n > 0 {
        lemma_joined_samples(points, mirrored, decision, (n - 1) as nat);
    }
}

/// The text of a rating is its rows, one after the other: one row for each
/// sample and exactly one row for the decision, which is the last. Every row
/// is one line with as many fields as the header names, and the header is
/// that of all ratings.
pub proof fn lemma_rating_rows_shape(points: Seq<DataPoint>, mirrored: bool, decision: DataPoint)
    ensures
        rating_rows(points, mirrored, decision).len() == points.len() + 1,
        rating_text(points, mirrored, decision) == joined(
            rating_rows(points, mirrored, decision),
            points.len() + 1,
        ),
        forall|i: int|
            0 <= i < points.len() ==> #[trigger] rating_rows(points, mirrored, decision)[i]
                == decision_row(points[i], mirrored),
        rating_rows(points, mirrored, decision)[points.len() as int] == final_row(
            decision.timestamp as nat,
            written_value(decision.value as int, mirrored),
        ),
        forall|i: int|
            0 <= i <= points.len() ==> line_count(
                #[trigger] rating_rows(points, mirrored, decision)[i],
            ) == 1 && rating_rows(points, mirrored, decision)[i].last() == '\n' && comma_count(
                rating_rows(points, mirrored, decision)[i],
            ) == comma_count(RATING_HEADER@),
        comma_count(RATING_HEADER@) == 2,
        line_count(rating_text(points, mirrored, decision)) == points.len() + 1,
{
    let rows = rating_rows(points, mirrored, decision);
    lemma_joined_samples(points, mirrored, decision, points.len());
    lemma_header_fields();
    lemma_row_words();
    reveal_strlit("\n");
    assert forall|i: int| 0 <= i <= points.len() implies line_count(#[trigger] rows[i]) == 1
        && rows[i].last() == '\n' && comma_count(rows[i]) == comma_count(RATING_HEADER@) by {
        if i < points.len() {
            lemma_decision_row_shape(points[i], mirrored);
        } else {
            lemma_final_row_shape(
                decision.timestamp as nat,
                written_value(decision.value as int, mirrored),
            );
        }
    }
    lemma_decision_rows_shape(points, mirrored, points.len());
    lemma_final_row_shape(
        decision.timestamp as nat,
        written_value(decision.value as int, mirrored),
    );
    lemma_count_char_concat(
        decision_rows(points, mirrored, points.len()),
        final_row(decision.timestamp as nat, written_value(decision.value as int, mirrored)),
        '\n',
    );
}

/// Appends the rows of a rating: those of the samples and that of the
/// decision.
pub fn push_rating_rows(
    out: &mut String,
    points: &Vec<DataPoint>,
    mirrored: bool,
    decision: DataPoint,
)
    ensures
        final(out)@ == old(out)@ + rating_text(points@, mirrored, decision),
{
    push_decision_rows(out, points, mirrored);
    let value: i64 = if mirrored {
        -(decision.value as i64)
    } else {
        decision.value as i64
    };
    push_final_row(out, decision.timestamp, value);
    assert(final(out)@ =~= old(out)@ + rating_text(points@, mirrored, decision));
}

/// The header of a rating names three fields.
pub proof fn lemma_header_fields()
    ensures
        comma_count(RATING_HEADER@) == 2,
{
    reveal_strlit("type,timestamp,value");
    lemma_header_count("type,timestamp,value"@);
}

proof fn lemma_header_count(word: Seq<char>)
    requires
        word.len() == 20,
        word[4] == ',',
        word[14] == ',',
        forall|i: int| 0 <= i < 20 && i != 4 && i != 14 ==> word[i] != ',',
    ensures
        count_char(word, ',') == 2,
{
    let a = word.take(4);
    let b = word.subrange(5, 14);
    let c = word.subrange(15, 20);
    lemma_count_in_word(a, ',');
    lemma_count_in_word(b, ',');
    lemma_count_in_word(c, ',');
    let comma = seq![','];
    assert(comma.drop_last() =~= Seq::<char>::empty());
    assert(count_char(comma, ',') == 1) by {
        reveal_with_fuel(count_char, 2);
    }
    assert(word =~= a + comma + b + comma + c);
    lemma_count_char_concat(a, comma, ',');
    lemma_count_char_concat(a + comma, b, ',');
    lemma_count_char_concat(a + comma + b, comma, ',');
    lemma_count_char_concat(a + comma + b + comma, c, ',');
}

/// A copy of `points`.
pub fn copy_points(points: &Vec<DataPoint>) -> (copy: Vec<DataPoint>)
    ensures
        copy@ == points@,
{
    let mut copy: Vec<DataPoint> = Vec::new();
    let mut i: usize = 0;
    while i < points.len()
        invariant
            i <= points.len(),
            copy@ == points@.take(i as int),
        decreases points.len() - i,
    {
        copy.push(points[i]);
        i = i + 1;
        assert(copy@ =~= points@.take(i as int));
    }
    assert(points@.take(points@.len() as int) =~= points@);
    copy
}

} // verus!
