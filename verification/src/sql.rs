use vstd::prelude::*;

verus! {

/// The character for the decimal digit `d`.
pub open spec fn digit_char(d: nat) -> char {
    if d == 0 {
        '0'
    } else if d == 1 {
        '1'
    } else if d == 2 {
        '2'
    } else if d == 3 {
        '3'
    } else if d == 4 {
        '4'
    } else if d == 5 {
        '5'
    } else if d == 6 {
        '6'
    } else if d == 7 {
        '7'
    } else if d == 8 {
        '8'
    } else {
        '9'
    }
}

/// The decimal representation of `n`: most significant digit first, no leading
/// zeros, a single `'0'` for zero.
pub open spec fn dec_rep(n: nat) -> Seq<char>
    decreases n,
{
    if n < 10 {
        seq![digit_char(n)]
    } else {
        dec_rep(n / 10).push(digit_char(n % 10))
    }
}

/// The savepoint name for nesting level `n + 1`: the fixed prefix followed by
/// `n` in decimal. Depth alone determines the name, so two open savepoints on
/// one connection never share a name.
pub open spec fn savepoint_name(n: nat) -> Seq<char> {
    "diesel_savepoint_"@ + dec_rep(n)
}

/// The statement a `begin` at depth `d` issues: `BEGIN` opens the top-level
/// transaction, every further level is a savepoint named after the depth it
/// is created at.
pub open spec fn begin_stmt(d: nat) -> Seq<char> {
    if d == 0 {
        "BEGIN"@
    } else {
        "SAVEPOINT "@ + savepoint_name(d)
    }
}

/// The statement a `rollback` at depth `d` issues: `ROLLBACK` closes the
/// top-level transaction, a deeper rollback returns to the most recent
/// savepoint.
pub open spec fn rollback_stmt(d: nat) -> Seq<char> {
    if d <= 1 {
        "ROLLBACK"@
    } else {
        "ROLLBACK TO SAVEPOINT "@ + savepoint_name((d - 1) as nat)
    }
}

/// The statement a `commit` at depth `d` issues: `COMMIT` closes the
/// top-level transaction, a deeper commit releases the most recent savepoint.
pub open spec fn commit_stmt(d: nat) -> Seq<char> {
    if d <= 1 {
        "COMMIT"@
    } else {
        "RELEASE SAVEPOINT "@ + savepoint_name((d - 1) as nat)
    }
}

fn digit_str(d: u32) -> (s: &'static str)
    requires
        d < 10,
    ensures
        s@ == seq![digit_char(d as nat)],
{
    proof {
        reveal_strlit("0");
        reveal_strlit("1");
        reveal_strlit("2");
        reveal_strlit("3");
        reveal_strlit("4");
        reveal_strlit("5");
        reveal_strlit("6");
        reveal_strlit("7");
        reveal_strlit("8");
        reveal_strlit("9");
    }
    let s: &'static str = if d == 0 {
        "0"
    } else if d == 1 {
        "1"
    } else if d == 2 {
        "2"
    } else if d == 3 {
        "3"
    } else if d == 4 {
        "4"
    } else if d == 5 {
        "5"
    } else if d == 6 {
        "6"
    } else if d == 7 {
        "7"
    } else if d == 8 {
        "8"
    } else {
        "9"
    };
    proof {
        assert(s@ =~= seq![digit_char(d as nat)]);
    }
    s
}

/// Renders `n` in decimal.
pub fn dec_string(n: u32) -> (s: String)
    ensures
        s@ == dec_rep(n as nat),
    decreases n,
{
    if n < 10 {
        let s = digit_str(n).to_owned();
        proof {
            assert(s@ =~= dec_rep(n as nat));
        }
        s
    } else {
        let mut s = dec_string(n / 10);
        s.append(digit_str(n % 10));
        proof {
            assert(s@ =~= dec_rep(n as nat));
        }
        s
    }
}

/// Builds the statement for a `begin` at depth `depth`.
pub fn begin_sql(depth: u32) -> (s: String)
    ensures
        s@ == begin_stmt(depth as nat),
{
    if depth == 0 {
        "BEGIN".to_owned()
    } else {
        let mut s = "SAVEPOINT diesel_savepoint_".to_owned();
        s.append(dec_string(depth).as_str());
        proof {
            reveal_strlit("SAVEPOINT diesel_savepoint_");
            reveal_strlit("SAVEPOINT ");
            reveal_strlit("diesel_savepoint_");
            assert(s@ =~= begin_stmt(depth as nat));
        }
        s
    }
}

/// Builds the statement for a `rollback` at depth `depth`.
pub fn rollback_sql(depth: u32) -> (s: String)
    ensures
        s@ == rollback_stmt(depth as nat),
{
    if depth <= 1 {
        "ROLLBACK".to_owned()
    } else {
        let mut s = "ROLLBACK TO SAVEPOINT diesel_savepoint_".to_owned();
        s.append(dec_string(depth - 1).as_str());
        proof {
            reveal_strlit("ROLLBACK TO SAVEPOINT diesel_savepoint_");
            reveal_strlit("ROLLBACK TO SAVEPOINT ");
            reveal_strlit("diesel_savepoint_");
            assert(s@ =~= rollback_stmt(depth as nat));
        }
        s
    }
}

/// Builds the statement for a `commit` at depth `depth`.
pub fn commit_sql(depth: u32) -> (s: String)
    ensures
        s@ == commit_stmt(depth as nat),
{
    if depth <= 1 {
        "COMMIT".to_owned()
    } else {
        let mut s = "RELEASE SAVEPOINT diesel_savepoint_".to_owned();
        s.append(dec_string(depth - 1).as_str());
        proof {
            reveal_strlit("RELEASE SAVEPOINT diesel_savepoint_");
            reveal_strlit("RELEASE SAVEPOINT ");
            reveal_strlit("diesel_savepoint_");
            assert(s@ =~= commit_stmt(depth as nat));
        }
        s
    }
}

} // verus!
