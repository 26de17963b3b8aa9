//! Name usage bookkeeping shared by the collision avoiders, and decimal rendering.
use vstd::prelude::*;

verus! {

/// The decimal digit character of `d` (`0` to `9`).
pub open spec fn digit_char(d: nat) -> char {
    if d == 0 {
        '0'
    } else if d == 1 {
        '1'
    } else if d == 2 {
        '2'
    } else if d == 3 {
        '3'
    } else if d == 4 {
        '4'
    } else if d == 5 {
        '5'
    } else if d == 6 {
        '6'
    } else if d == 7 {
        '7'
    } else if d == 8 {
        '8'
    } else {
        '9'
    }
}

/// The decimal representation of `n`, without leading zeros.
pub open spec fn decimal(n: nat) -> Seq<char>
    decreases n,
{
    if n < 10 {
        seq![digit_char(n)]
    } else {
        decimal(n / 10) + seq![digit_char(n % 10)]
    }
}

/// The one-character string of the decimal digit `d`.
fn digit_str(d: usize) -> (r: &'static str)
    requires
        d < 10,
    ensures
        r@ == seq![digit_char(d as nat)],
{
    proof {
        reveal_strlit("0");
        reveal_strlit("1");
        reveal_strlit("2");
        reveal_strlit("3");
        reveal_strlit("4");
        reveal_strlit("5");
        reveal_strlit("6");
        reveal_strlit("7");
        reveal_strlit("8");
        reveal_strlit("9");
    }
    if d == 0 {
        "0"
    } else if d == 1 {
        "1"
    } else if d == 2 {
        "2"
    } else if d == 3 {
        "3"
    } else if d == 4 {
        "4"
    } else if d == 5 {
        "5"
    } else if d == 6 {
        "6"
    } else if d == 7 {
        "7"
    } else if d == 8 {
        "8"
    } else {
        "9"
    }
}

/// Appends the decimal representation of `n` to `out`.
pub fn append_decimal(out: &mut String, n: usize)
    ensures
        final(out)@ == old(out)@ + decimal(n as nat),
    decreases n,
{
    if n >= 10 {
        append_decimal(out, n / 10);
    }
    let digit = digit_str(n % 10);
    out.append(digit);
    proof {
        assert(old(out)@ + decimal(n as nat) =~= if n >= 10 {
            old(out)@ + decimal((n / 10) as nat) + seq![digit_char((n % 10) as nat)]
        } else {
            old(out)@ + seq![digit_char(n as nat)]
        });
    }
}

/// A name and how many times it was asked for.
#[derive(Debug)]
pub struct NameUsage {
    /// The name.
    pub name: String,
    /// How many times it was asked for.
    pub usages: usize,
}

/// How many times each name was asked for, given the usage records `records`
/// (a later record of a name overrides an earlier one).
pub open spec fn usages(records: Seq<NameUsage>) -> Map<Seq<char>, nat>
    decreases records.len(),
{
    if records.len() == 0 {
        Map::empty()
    } else {
        usages(records.drop_last()).insert(records.last().name@, records.last().usages as nat)
    }
}

/// A name no record holds has no usages.
pub proof fn lemma_usages_of_absent(records: Seq<NameUsage>, name: Seq<char>)
    requires
        forall|t: int| 0 <= t < records.len() ==> (#[trigger] records[t]).name@ != name,
    ensures
        !usages(records).contains_key(name),
    decreases records.len(),
{
    if records.len() > 0 {
        lemma_usages_of_absent(records.drop_last(), name);
    }
}

/// The usages of a name are those of its last record.
pub proof fn lemma_usages_of_last(records: Seq<NameUsage>, i: int, name: Seq<char>)
    requires
        0 <= i < records.len(),
        records[i].name@ == name,
        forall|t: int| i < t < records.len() ==> (#[trigger] records[t]).name@ != name,
    ensures
        usages(records).contains_key(name),
        usages(records)[name] == records[i].usages as nat,
    decreases records.len(),
{
    if i < records.len() - 1 {
        lemma_usages_of_last(records.drop_last(), i, name);
    }
}

/// Updating the last record of a name updates that name's usages only.
pub proof fn lemma_usages_after_update(records: Seq<NameUsage>, i: int, record: NameUsage)
    requires
        0 <= i < records.len(),
        records[i].name@ == record.name@,
        forall|t: int| i < t < records.len() ==> (#[trigger] records[t]).name@ != record.name@,
    ensures
        usages(records.update(i, record)) == usages(records).insert(record.name@, record.usages as nat),
    decreases records.len(),
{
    let updated = records.update(i, record);
    if i == records.len() - 1 {
        assert(updated.drop_last() =~= records.drop_last());
        assert(usages(updated) =~= usages(records).insert(record.name@, record.usages as nat));
    } else {
        lemma_usages_after_update(records.drop_last(), i, record);
        assert(updated.drop_last() =~= records.drop_last().update(i, record));
        assert(usages(updated) =~= usages(records).insert(record.name@, record.usages as nat));
    }
}

/// Finds the index of the last record of `name`.
pub fn find_last_record(records: &Vec<NameUsage>, name: &str) -> (r: Option<usize>)
    ensures
        match r {
            Some(i) => {
                &&& i < records.len()
                &&& records@[i as int].name@ == name@
                &&& forall|t: int| i < t < records.len() ==> (#[trigger] records@[t]).name@ != name@
            },
            None => forall|t: int| 0 <= t < records.len() ==> (#[trigger] records@[t]).name@ != name@,
        },
{
    let key = String::from_str(name);
    let mut j = records.len();
    while j > 0
        invariant
            j <= records.len(),
            key@ == name@,
            forall|t: int| j <= t < records.len() ==> (#[trigger] records@[t]).name@ != name@,
        decreases j,
    {
        if crate::path::strings_equal(&records[j - 1].name, &key) {
            return Some(j - 1);
        }
        j = j - 1;
    }
    None
}

} // verus!
