//! The variable table: the ordered list of `(token, value)` pairs that
//! template rendering applies.  The first eight entries come from the
//! user's choices (the application name and package each appear under
//! two token spellings), then a fixed secret constant and the server
//! port rendered as decimal text, followed by the selected profile's
//! eight generic entries.

use vstd::prelude::*;
use crate::profiles::DatabaseType;
use crate::profiles::db_vars_spec;
use crate::profiles::get_db_vars;
use crate::subst::apply_all_spec;
use crate::subst::apply_replacements;
use crate::subst::pair_views;

verus! {

/// The decimal digit character for `d` (digits ten and above never
/// arise; they are mapped to `'0'` to keep the function total).
pub open spec fn dec_digit(d: nat) -> char {
    if d == 0 {
        '0'
    } else if d == 1 {
        '1'
    } else if d == 2 {
        '2'
    } else if d == 3 {
        '3'
    } else if d == 4 {
        '4'
    } else if d == 5 {
        '5'
    } else if d == 6 {
        '6'
    } else if d == 7 {
        '7'
    } else if d == 8 {
        '8'
    } else if d == 9 {
        '9'
    } else {
        '0'
    }
}

/// `n` written in decimal, most significant digit first, with no
/// leading zeroes (zero itself is written `"0"`).
pub open spec fn dec_str(n: nat) -> Seq<char>
    decreases n,
{
    if n < 10 {
        seq![dec_digit(n)]
    } else {
        dec_str(n / 10).push(dec_digit(n % 10))
    }
}

/// The one-character string for decimal digit `d`.
fn digit_str(d: u16) -> (res: &'static str)
    requires
        d < 10,
    ensures
        res@ == seq![dec_digit(d as nat)],
{
    proof {
        reveal_strlit("0");
        reveal_strlit("1");
        reveal_strlit("2");
        reveal_strlit("3");
        reveal_strlit("4");
        reveal_strlit("5");
        reveal_strlit("6");
        reveal_strlit("7");
        reveal_strlit("8");
        reveal_strlit("9");
    }
    let res = match d {
        0 => "0",
        1 => "1",
        2 => "2",
        3 => "3",
        4 => "4",
        5 => "5",
        6 => "6",
        7 => "7",
        8 => "8",
        _ => "9",
    };
    assert(res@ =~= seq![dec_digit(d as nat)]);
    res
}

/// Renders `n` in decimal, exactly as `dec_str` states it.
pub fn u16_to_dec(n: u16) -> (res: String)
    ensures
        res@ == dec_str(n as nat),
    decreases n,
{
    if n < 10 {
        digit_str(n).to_owned()
    } else {
        let mut prefix = u16_to_dec(n / 10);
        prefix.append(digit_str(n % 10));
        assert(prefix@ =~= dec_str(n as nat));
        prefix
    }
}

/// The eight user-derived `(token, value)` pairs that open the table.
pub open spec fn base_vars_spec(
    name: Seq<char>,
    package: Seq<char>,
    group: Seq<char>,
    artifact: Seq<char>,
    port: u16,
) -> Seq<(Seq<char>, Seq<char>)> {
    seq![
        ("{{APPLICATION_NAME}}"@, name),
        ("{{PACKAGE_NAME}}"@, package),
        ("{{GROUP_ID}}"@, group),
        ("{{ARTIFACT_ID}}"@, artifact),
        ("{{APP_NAME}}"@, name),
        ("{{BASE_PACKAGE}}"@, package),
        ("{{JWT_SECRET}}"@, "myapp-super-secret-key-change-in-prod"@),
        ("{{SERVER_PORT}}"@, dec_str(port as nat)),
    ]
}

/// The whole table: the user-derived pairs followed by the profile's.
pub open spec fn table_spec(
    name: Seq<char>,
    package: Seq<char>,
    group: Seq<char>,
    artifact: Seq<char>,
    port: u16,
    db: DatabaseType,
) -> Seq<(Seq<char>, Seq<char>)> {
    base_vars_spec(name, package, group, artifact, port) + db_vars_spec(db)
}

/// Builds the replacement table, exactly as `table_spec` states it.
pub fn build_replacements(
    name: &str,
    package: &str,
    group: &str,
    artifact: &str,
    port: u16,
    db: DatabaseType,
) -> (res: Vec<(String, String)>)
    ensures
        pair_views(res@) == table_spec(name@, package@, group@, artifact@, port, db),
{
    let port_text = u16_to_dec(port);
    let mut res: Vec<(String, String)> = vec![
        ("{{APPLICATION_NAME}}".to_owned(), name.to_owned()),
        ("{{PACKAGE_NAME}}".to_owned(), package.to_owned()),
        ("{{GROUP_ID}}".to_owned(), group.to_owned()),
        ("{{ARTIFACT_ID}}".to_owned(), artifact.to_owned()),
        ("{{APP_NAME}}".to_owned(), name.to_owned()),
        ("{{BASE_PACKAGE}}".to_owned(), package.to_owned()),
        ("{{JWT_SECRET}}".to_owned(), "myapp-super-secret-key-change-in-prod".to_owned()),
        ("{{SERVER_PORT}}".to_owned(), port_text),
    ];
    let ghost base = base_vars_spec(name@, package@, group@, artifact@, port);
    assert(pair_views(res@) =~= base);
    let db_vars = get_db_vars(&db);
    let mut i: usize = 0;
    proof {
        assert(db_vars_spec(db).subrange(0, 0) =~= Seq::<(Seq<char>, Seq<char>)>::empty());
        assert(pair_views(res@) =~= base + db_vars_spec(db).subrange(0, 0));
    }
    while i < db_vars.len()
        invariant
            0 <= i <= db_vars@.len(),
            crate::profiles::str_pair_views(db_vars@) == db_vars_spec(db),
            pair_views(res@) == base + db_vars_spec(db).subrange(0, i as int),
        decreases db_vars@.len() - i,
    {
        let pair = db_vars[i];
        let ghost prev = pair_views(res@);
        res.push((pair.0.to_owned(), pair.1.to_owned()));
        proof {
            assert(crate::profiles::str_pair_views(db_vars@)[i as int]
                == (db_vars@[i as int].0@, db_vars@[i as int].1@));
            assert(pair_views(res@) =~= prev.push((pair.0@, pair.1@)));
            assert((pair.0@, pair.1@) == db_vars_spec(db)[i as int]);
            assert(pair_views(res@) =~= base + db_vars_spec(db).subrange(0, i + 1));
        }
        i = i + 1;
    }
    proof {
        assert(db_vars_spec(db).subrange(0, db_vars_spec(db).len() as int) =~= db_vars_spec(db));
    }
    res
}

/// Every token of the table is a brace-delimited marker written in the
/// token alphabet (upper-case letters, underscores and braces), and so
/// non-empty: exactly the shape `lemma_apply_all_eliminates_tokens` in
/// `subst` asks of tokens.
pub proof fn lemma_table_tokens_wellformed(
    name: Seq<char>,
    package: Seq<char>,
    group: Seq<char>,
    artifact: Seq<char>,
    port: u16,
    db: DatabaseType,
)
    ensures
        forall|k: int|
            0 <= k < table_spec(name, package, group, artifact, port, db).len()
                ==> crate::subst::token_shaped(
                (#[trigger] table_spec(name, package, group, artifact, port, db)[k]).0,
            ) && crate::subst::token_chars_ok(
                table_spec(name, package, group, artifact, port, db)[k].0,
            ),
{
    reveal_strlit("{{APPLICATION_NAME}}");
    reveal_strlit("{{PACKAGE_NAME}}");
    reveal_strlit("{{GROUP_ID}}");
    reveal_strlit("{{ARTIFACT_ID}}");
    reveal_strlit("{{APP_NAME}}");
    reveal_strlit("{{BASE_PACKAGE}}");
    reveal_strlit("{{JWT_SECRET}}");
    reveal_strlit("{{SERVER_PORT}}");
    reveal_strlit("{{DB_IMAGE}}");
    reveal_strlit("{{DB_TYPE}}");
    reveal_strlit("{{DB_DATA_PATH}}");
    reveal_strlit("{{DB_HEALTHCHECK}}");
    reveal_strlit("{{DB_JDBC_URL}}");
    reveal_strlit("{{DB_PORT}}");
    reveal_strlit("{{DB_DIALECT}}");
    reveal_strlit("{{DB_DRIVER}}");
}

/// The decimal rendering of a number is a non-empty string of digits.
pub proof fn lemma_dec_str_digits(n: nat)
    ensures
        dec_str(n).len() >= 1,
        forall|i: int|
            0 <= i < dec_str(n).len() ==> '0' <= #[trigger] dec_str(n)[i] && dec_str(n)[i] <= '9',
    decreases n,
{
    if n >= 10 {
        lemma_dec_str_digits(n / 10);
        assert forall|i: int| 0 <= i < dec_str(n).len() implies '0' <= #[trigger] dec_str(n)[i]
            && dec_str(n)[i] <= '9' by {
            if i < dec_str(n).len() - 1 {
                assert(dec_str(n)[i] == dec_str(n / 10)[i]);
            }
        }
    }
}

/// A string of digits is visibly foreign to every token.
pub proof fn lemma_dec_str_token_safe(n: nat)
    ensures
        crate::subst::token_safe_value(dec_str(n)),
{
    lemma_dec_str_digits(n);
}

/// Law: rendering leaves no recognized token behind.  For every profile
/// but MongoDB (whose empty dialect and driver values can splice a
/// token back together out of its own halves), if each user-supplied
/// value is non-empty, brace-free and no substring of a token, then no
/// token of the table occurs in the rendered content — the exact
/// guarantee behind `render`'s result.
pub proof fn lemma_render_leaves_no_token(
    content: Seq<char>,
    name: Seq<char>,
    package: Seq<char>,
    group: Seq<char>,
    artifact: Seq<char>,
    port: u16,
    db: DatabaseType,
    k: int,
)
    requires
        db != DatabaseType::Mongo,
        crate::subst::value_safe_for(name, table_spec(name, package, group, artifact, port, db)),
        crate::subst::value_safe_for(
            package,
            table_spec(name, package, group, artifact, port, db),
        ),
        crate::subst::value_safe_for(group, table_spec(name, package, group, artifact, port, db)),
        crate::subst::value_safe_for(
            artifact,
            table_spec(name, package, group, artifact, port, db),
        ),
        0 <= k < table_spec(name, package, group, artifact, port, db).len(),
    ensures
        !crate::subst::occurs(
            apply_all_spec(content, table_spec(name, package, group, artifact, port, db)),
            table_spec(name, package, group, artifact, port, db)[k].0,
        ),
{
    let tbl = table_spec(name, package, group, artifact, port, db);
    lemma_table_tokens_wellformed(name, package, group, artifact, port, db);
    lemma_dec_str_token_safe(port as nat);
    reveal_strlit("myapp-super-secret-key-change-in-prod");
    assert(crate::subst::token_safe_value("myapp-super-secret-key-change-in-prod"@));
    crate::profiles::lemma_db_values_token_safe(db);
    assert forall|i: int| 0 <= i < tbl.len() implies (#[trigger] tbl[i]).1.len() >= 1
        && crate::subst::brace_free(tbl[i].1) by {
        if i >= 8 {
            assert(crate::subst::token_safe_value(db_vars_spec(db)[i - 8].1));
        } else if i == 6 || i == 7 {
            assert(crate::subst::token_safe_value(tbl[i].1));
        }
    }
    assert forall|i: int, j: int| 0 <= i < tbl.len() && 0 <= j < tbl.len() implies !crate::subst::occurs(
        (#[trigger] tbl[j]).0,
        (#[trigger] tbl[i]).1,
    ) by {
        if i == 6 || i == 7 {
            crate::subst::lemma_token_safe_no_occurrence(tbl[j].0, tbl[i].1);
        } else if i >= 8 {
            assert(crate::subst::token_safe_value(db_vars_spec(db)[i - 8].1));
            crate::subst::lemma_token_safe_no_occurrence(tbl[j].0, tbl[i].1);
        }
    }
    crate::subst::lemma_apply_all_eliminates_tokens(content, tbl, k);
}

/// Renders one template's content: applies the whole variable table for
/// the given choices to `content`, as a left fold in table order.
pub fn render(
    content: &str,
    name: &str,
    package: &str,
    group: &str,
    artifact: &str,
    port: u16,
    db: DatabaseType,
) -> (res: String)
    ensures
        res@ == apply_all_spec(
            content@,
            table_spec(name@, package@, group@, artifact@, port, db),
        ),
{
    let reps = build_replacements(name, package, group, artifact, port, db);
    proof {
        lemma_table_tokens_wellformed(name@, package@, group@, artifact@, port, db);
        assert forall|k: int| 0 <= k < reps@.len() implies (#[trigger] reps@[k]).0@.len()
            >= 1 by {
            assert(pair_views(reps@)[k] == (reps@[k].0@, reps@[k].1@));
            assert(crate::subst::token_shaped(
                table_spec(name@, package@, group@, artifact@, port, db)[k].0,
            ));
        }
    }
    apply_replacements(content, &reps)
}

} // verus!
