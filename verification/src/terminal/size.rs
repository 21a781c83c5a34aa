//! The sizes that a terminal can have.
use vstd::prelude::*;
use vstd::string::*;

use crate::text::{decimal, str_eq};

verus! {

/// The sizes that a terminal can have, in columns and rows.
pub open spec fn is_allowed_size(cols: usize, rows: usize) -> bool {
    ||| cols == 80 && rows == 24
    ||| cols == 120 && rows == 40
    ||| cols == 160 && rows == 40
    ||| cols == 200 && rows == 50
}

/// The size with the name `name`, in columns and rows. Any other name stands for
/// the default size.
pub open spec fn size_named(name: Seq<char>) -> (usize, usize) {
    if name == "120x40"@ {
        (120, 40)
    } else if name == "160x40"@ {
        (160, 40)
    } else if name == "200x50"@ {
        (200, 50)
    } else {
        (80, 24)
    }
}

/// Whether a terminal can have this size.
pub fn allowed_size(cols: usize, rows: usize) -> (res: bool)
    ensures
        res == is_allowed_size(cols, rows),
{
    (cols == 80 && rows == 24) || (cols == 120 && rows == 40) || (cols == 160 && rows == 40) || (
    cols == 200 && rows == 50)
}

/// The size with the name `name`, in columns and rows.
pub fn size_from_name(name: &str) -> (res: (usize, usize))
    ensures
        res == size_named(name@),
{
    if str_eq(name, "120x40") {
        (120, 40)
    } else if str_eq(name, "160x40") {
        (160, 40)
    } else if str_eq(name, "200x50") {
        (200, 50)
    } else {
        (80, 24)
    }
}

/// Every name stands for a size that a terminal can have.
pub proof fn law_named_sizes_are_allowed(name: Seq<char>)
    ensures
        is_allowed_size(size_named(name).0, size_named(name).1),
{
}

/// A size as its name gives it: columns and rows in decimal, with an `x` between.
pub open spec fn name_of_size(cols: usize, rows: usize) -> Seq<char> {
    decimal(cols as nat) + seq!['x'] + decimal(rows as nat)
}

/// Each size that a terminal can have goes by its own name: 80x24, 120x40, 160x40
/// and 200x50.
pub proof fn law_sizes_go_by_their_names(cols: usize, rows: usize)
    requires
        is_allowed_size(cols, rows),
    ensures
        size_named(name_of_size(cols, rows)) == (cols, rows),
{
    reveal_strlit("120x40");
    reveal_strlit("160x40");
    reveal_strlit("200x50");
    reveal_with_fuel(decimal, 4);
    let name = name_of_size(cols, rows);
    if cols == 80 {
        assert(name.len() == 5);
        assert("120x40"@.len() == 6 && "160x40"@.len() == 6 && "200x50"@.len() == 6);
    } else if cols == 120 {
        assert(name =~= "120x40"@);
    } else if cols == 160 {
        assert(name =~= "160x40"@);
        assert("120x40"@[1] != "160x40"@[1]);
    } else {
        assert(name =~= "200x50"@);
        assert("120x40"@[0] != "200x50"@[0] && "160x40"@[0] != "200x50"@[0]);
    }
}

/// A name gives another size than 80x24 only where it is the name of that size.
pub proof fn law_other_names_give_the_default_size(name: Seq<char>)
    ensures
        size_named(name) == (80usize, 24usize) || (is_allowed_size(
            size_named(name).0,
            size_named(name).1,
        ) && name == name_of_size(size_named(name).0, size_named(name).1)),
{
    reveal_strlit("120x40");
    reveal_strlit("160x40");
    reveal_strlit("200x50");
    reveal_with_fuel(decimal, 4);
    assert(name_of_size(120, 40) =~= "120x40"@);
    assert(name_of_size(160, 40) =~= "160x40"@);
    assert(name_of_size(200, 50) =~= "200x50"@);
}

/// The sizes that a terminal can have, told by their columns: 24 rows for 80 columns,
/// 40 for 120 and 160, and 50 for 200.
pub proof fn law_rows_follow_columns(cols: usize, rows: usize)
    ensures
        is_allowed_size(cols, rows) <==> {
            ||| cols == 80 && rows == 24
            ||| (cols == 120 || cols == 160) && rows == 40
            ||| cols == 200 && rows == 50
        },
{
}

} // verus!
