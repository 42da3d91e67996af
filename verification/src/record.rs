//! The text record of a player as the store keeps it: seven fields separated by
//! `;` (id, name, position, velocity, input direction, rotation, speed). The
//! numbers are written and read elsewhere; here the record is put together and
//! taken apart.
use vstd::prelude::*;

use crate::text::{
    join_text, join_with, lemma_split_join, no_piece_holds, split_on, split_text,
    strings_view, copy_string,
};

verus! {

/// The fields of a player record, each as text.
pub struct PlayerFields {
    pub id: String,
    pub username: String,
    pub position: String,
    pub velocity: String,
    pub input_direction: String,
    pub rotation: String,
    pub speed: String,
}

/// The fields in record order.
pub open spec fn fields_seq(f: PlayerFields) -> Seq<Seq<char>> {
    seq![f.id@, f.username@, f.position@, f.velocity@, f.input_direction@, f.rotation@, f.speed@]
}

/// The record of the fields.
pub open spec fn record_text(f: PlayerFields) -> Seq<char> {
    join_with(fields_seq(f), ';')
}

impl PlayerFields {
    /// The record: the fields in order, separated by `;`.
    pub fn to_record(&self) -> (text: String)
        ensures
            text@ == record_text(*self),
            text@ == self.id@.push(';') + self.username@.push(';') + self.position@.push(';')
                + self.velocity@.push(';') + self.input_direction@.push(';') + self.rotation@.push(
                ';',
            ) + self.speed@,
    {
        proof {
            lemma_record_layout(*self);
        }
        let parts: Vec<String> = vec![
            copy_string(&self.id),
            copy_string(&self.username),
            copy_string(&self.position),
            copy_string(&self.velocity),
            copy_string(&self.input_direction),
            copy_string(&self.rotation),
            copy_string(&self.speed),
        ];
        assert(strings_view(parts@) =~= fields_seq(*self));
        join_text(&parts, ';')
    }

    /// The first seven `;`-separated fields of a record; `None` when it has fewer.
    pub fn from_record(text: &str) -> (fields: Option<PlayerFields>)
        ensures
            match fields {
                Some(f) => {
                    let parts = split_on(text@, ';');
                    &&& parts.len() >= 7
                    &&& fields_seq(f) == parts.take(7)
                    &&& f.id@ == parts[0] && f.username@ == parts[1]
                    &&& f.position@ == parts[2] && f.velocity@ == parts[3]
                    &&& f.input_direction@ == parts[4] && f.rotation@ == parts[5]
                    &&& f.speed@ == parts[6]
                },
                None => split_on(text@, ';').len() < 7,
            },
    {
        let parts = split_text(text, ';');
        if parts.len() < 7 {
            return None;
        }
        let f = PlayerFields {
            id: copy_string(&parts[0]),
            username: copy_string(&parts[1]),
            position: copy_string(&parts[2]),
            velocity: copy_string(&parts[3]),
            input_direction: copy_string(&parts[4]),
            rotation: copy_string(&parts[5]),
            speed: copy_string(&parts[6]),
        };
        assert(fields_seq(f) =~= split_on(text@, ';').take(7));
        Some(f)
    }
}

/// Reading a record back gives its fields, as long as no field holds `;`.
pub proof fn lemma_record_round_trip(f: PlayerFields)
    requires
        no_piece_holds(fields_seq(f), ';'),
    ensures
        split_on(record_text(f), ';').len() == 7,
        split_on(record_text(f), ';').take(7) == fields_seq(f),
{
    lemma_split_join(fields_seq(f), ';');
    assert(fields_seq(f).take(7) =~= fields_seq(f));
}

/// The record is the id, name, position, velocity, input direction, rotation and
/// speed, in that order, each followed by `;` but the last.
pub proof fn lemma_record_layout(f: PlayerFields)
    ensures
        record_text(f) == f.id@.push(';') + f.username@.push(';') + f.position@.push(';')
            + f.velocity@.push(';') + f.input_direction@.push(';') + f.rotation@.push(';')
            + f.speed@,
{
    let fs = fields_seq(f);
    reveal_with_fuel(join_with, 8);
    assert(fs.drop_last().drop_last().drop_last().drop_last().drop_last().drop_last() =~= seq![f.id@]);
    assert(fs.drop_last().drop_last().drop_last().drop_last().drop_last() =~= seq![f.id@, f.username@]);
    assert(fs.drop_last().drop_last().drop_last().drop_last() =~= seq![f.id@, f.username@, f.position@]);
    assert(fs.drop_last().drop_last().drop_last() =~= seq![f.id@, f.username@, f.position@, f.velocity@]);
    assert(fs.drop_last().drop_last() =~= seq![
        f.id@,
        f.username@,
        f.position@,
        f.velocity@,
        f.input_direction@,
    ]);
    assert(fs.drop_last() =~= seq![
        f.id@,
        f.username@,
        f.position@,
        f.velocity@,
        f.input_direction@,
        f.rotation@,
    ]);
    assert(record_text(f) =~= f.id@.push(';') + f.username@.push(';') + f.position@.push(';')
        + f.velocity@.push(';') + f.input_direction@.push(';') + f.rotation@.push(';')
        + f.speed@);
}

/// Split on `;`, a record gives back its fields at fixed places: id, name,
/// position, velocity, input direction, rotation, speed (no field holding `;`).
pub proof fn lemma_record_fields_in_order(f: PlayerFields)
    requires
        !f.id@.contains(';'),
        !f.username@.contains(';'),
        !f.position@.contains(';'),
        !f.velocity@.contains(';'),
        !f.input_direction@.contains(';'),
        !f.rotation@.contains(';'),
        !f.speed@.contains(';'),
    ensures
        split_on(record_text(f), ';') == seq![
            f.id@,
            f.username@,
            f.position@,
            f.velocity@,
            f.input_direction@,
            f.rotation@,
            f.speed@,
        ],
{
    let parts = seq![
        f.id@,
        f.username@,
        f.position@,
        f.velocity@,
        f.input_direction@,
        f.rotation@,
        f.speed@,
    ];
    lemma_record_layout(f);
    assert forall|i: int| 0 <= i < parts.len() implies !(#[trigger] parts[i]).contains(';') by {
        if i == 0 {} else if i == 1 {} else if i == 2 {} else if i == 3 {} else if i == 4 {} else if i == 5 {} else {}
    }
    lemma_split_join(parts, ';');
    reveal_with_fuel(join_with, 8);
    let ps = parts;
    assert(ps.drop_last().drop_last().drop_last().drop_last().drop_last().drop_last() =~= seq![f.id@]);
    assert(ps.drop_last().drop_last().drop_last().drop_last().drop_last() =~= seq![f.id@, f.username@]);
    assert(ps.drop_last().drop_last().drop_last().drop_last() =~= seq![f.id@, f.username@, f.position@]);
    assert(ps.drop_last().drop_last().drop_last() =~= seq![f.id@, f.username@, f.position@, f.velocity@]);
    assert(ps.drop_last().drop_last() =~= seq![
        f.id@,
        f.username@,
        f.position@,
        f.velocity@,
        f.input_direction@,
    ]);
    assert(ps.drop_last() =~= seq![
        f.id@,
        f.username@,
        f.position@,
        f.velocity@,
        f.input_direction@,
        f.rotation@,
    ]);
    assert(join_with(parts, ';') =~= record_text(f));
}

} // verus!
