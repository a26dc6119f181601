//! The statement builder: it turns a static template with two substitution
//! points — a column-list placeholder and a predicate placeholder — into
//! executable SQL text by textual replacement.
//!
//! The predicate substitution splices the caller's condition into the text
//! verbatim, not as a bound parameter. Only the four insert values are ever
//! bound positionally; the filter fragment is trusted as the caller wrote
//! it. Callers of the list operation therefore must be trusted, or the
//! condition must be validated before it reaches this layer.

use vstd::prelude::*;
use vstd::string::{StrSliceExecFns, StringExecFns};

use crate::models::{table_fields, Filter, FilterView, User};

verus! {

/// Whether `s` starts with `pattern`, character by character.
pub open spec fn is_prefix_of(pattern: Seq<char>, s: Seq<char>) -> bool
    decreases pattern.len(),
{
    pattern.len() == 0 || (s.len() > 0 && s[0] == pattern[0] && is_prefix_of(
        pattern.skip(1),
        s.skip(1),
    ))
}

/// The text `s` with every occurrence of `pattern` replaced by
/// `replacement`, scanning left to right and never rescanning replaced
/// text; an empty pattern replaces nothing.
pub open spec fn replace_all_spec(
    s: Seq<char>,
    pattern: Seq<char>,
    replacement: Seq<char>,
) -> Seq<char>
    decreases s.len(),
{
    if pattern.len() == 0 || s.len() < pattern.len() {
        s
    } else if is_prefix_of(pattern, s) {
        replacement + replace_all_spec(s.skip(pattern.len() as int), pattern, replacement)
    } else {
        seq![s[0]] + replace_all_spec(s.skip(1), pattern, replacement)
    }
}

/// Whether `pattern` occurs anywhere in `s`.
pub open spec fn contains_pattern(s: Seq<char>, pattern: Seq<char>) -> bool
    decreases s.len(),
{
    if pattern.len() == 0 {
        true
    } else if s.len() < pattern.len() {
        false
    } else if is_prefix_of(pattern, s) {
        true
    } else {
        contains_pattern(s.skip(1), pattern)
    }
}

/// Whether `pattern` occurs in `s` starting at any index below `k`.
pub open spec fn occurrence_before(s: Seq<char>, pattern: Seq<char>, k: nat) -> bool
    decreases k,
{
    if k == 0 || s.len() == 0 {
        false
    } else if is_prefix_of(pattern, s) {
        true
    } else {
        occurrence_before(s.skip(1), pattern, (k - 1) as nat)
    }
}

/// A prefix match is the same thing as the leading subrange being the
/// pattern.
pub proof fn lemma_is_prefix_iff_take(pattern: Seq<char>, s: Seq<char>)
    ensures
        is_prefix_of(pattern, s) <==> (pattern.len() <= s.len() && s.take(pattern.len() as int)
            == pattern),
    decreases pattern.len(),
{
    if pattern.len() == 0 {
        assert(s.take(0) =~= pattern);
    } else if s.len() == 0 {
    } else {
        lemma_is_prefix_iff_take(pattern.skip(1), s.skip(1));
        if is_prefix_of(pattern, s) {
            assert(s.take(pattern.len() as int) =~= pattern) by {
                assert(s.skip(1).take(pattern.len() - 1) == pattern.skip(1));
                assert forall|t: int| 0 <= t < pattern.len() implies s.take(
                    pattern.len() as int,
                )[t] == pattern[t] by {
                    if t > 0 {
                        assert(pattern.skip(1)[t - 1] == pattern[t]);
                        assert(s.skip(1).take(pattern.len() - 1)[t - 1] == s[t]);
                    }
                }
            }
        }
        if pattern.len() <= s.len() && s.take(pattern.len() as int) == pattern {
            assert(s[0] == pattern[0]) by {
                assert(s.take(pattern.len() as int)[0] == s[0]);
            }
            assert(s.skip(1).take(pattern.len() - 1) =~= pattern.skip(1)) by {
                assert forall|t: int| 0 <= t < pattern.len() - 1 implies s.skip(1).take(
                    pattern.len() - 1,
                )[t] == pattern.skip(1)[t] by {
                    assert(s.take(pattern.len() as int)[t + 1] == s[t + 1]);
                }
            }
            assert(is_prefix_of(pattern, s));
        }
    }
}

/// Replacement leaves a text without the pattern unchanged.
pub proof fn lemma_replace_all_absent(s: Seq<char>, pattern: Seq<char>, replacement: Seq<char>)
    requires
        pattern.len() > 0,
        !contains_pattern(s, pattern),
    ensures
        replace_all_spec(s, pattern, replacement) == s,
    decreases s.len(),
{
    if s.len() < pattern.len() {
    } else {
        lemma_replace_all_absent(s.skip(1), pattern, replacement);
        assert(seq![s[0]] + s.skip(1) =~= s);
    }
}

/// When the pattern occurs exactly once — not before `prefix.len()`, and
/// not in the suffix — replacing it substitutes that one occurrence.
pub proof fn lemma_replace_all_single(
    prefix: Seq<char>,
    pattern: Seq<char>,
    suffix: Seq<char>,
    replacement: Seq<char>,
)
    requires
        pattern.len() > 0,
        !occurrence_before(prefix + pattern + suffix, pattern, prefix.len()),
        !contains_pattern(suffix, pattern),
    ensures
        replace_all_spec(prefix + pattern + suffix, pattern, replacement) == prefix + replacement
            + suffix,
    decreases prefix.len(),
{
    let s = prefix + pattern + suffix;
    if prefix.len() == 0 {
        assert(is_prefix_of(pattern, s)) by {
            lemma_is_prefix_iff_take(pattern, s);
            assert(s.take(pattern.len() as int) =~= pattern);
        }
        assert(s.skip(pattern.len() as int) =~= suffix);
        lemma_replace_all_absent(suffix, pattern, replacement);
        assert(prefix + replacement + suffix =~= replacement + suffix);
    } else {
        assert(s.len() > 0);
        assert(!is_prefix_of(pattern, s));
        assert(s.skip(1) =~= prefix.skip(1) + pattern + suffix);
        assert(!occurrence_before(prefix.skip(1) + pattern + suffix, pattern, (prefix.len()
            - 1) as nat));
        lemma_replace_all_single(prefix.skip(1), pattern, suffix, replacement);
        assert(s.len() >= pattern.len());
        assert(replace_all_spec(s, pattern, replacement) == seq![s[0]] + (prefix.skip(1)
            + replacement + suffix));
        assert(s[0] == prefix[0]);
        assert(seq![prefix[0]] + (prefix.skip(1) + replacement + suffix) =~= prefix + replacement
            + suffix);
    }
}

/// A pattern whose first two characters never stand side by side below
/// index `k` of `s` does not occur there.
pub proof fn lemma_no_occurrence_from_pair(s: Seq<char>, pattern: Seq<char>, k: nat)
    requires
        pattern.len() >= 2,
        forall|t: int|
            0 <= t < k && t + 1 < s.len() ==> !(#[trigger] s[t] == pattern[0] && s[t + 1]
                == pattern[1]),
    ensures
        !occurrence_before(s, pattern, k),
    decreases k,
{
    if k == 0 || s.len() == 0 {
    } else {
        assert(!is_prefix_of(pattern, s)) by {
            if is_prefix_of(pattern, s) {
                assert(s[0] == pattern[0]);
                assert(is_prefix_of(pattern.skip(1), s.skip(1)));
                assert(s.skip(1)[0] == pattern.skip(1)[0]);
                assert(s[1] == pattern[1]);
            }
        }
        assert forall|t: int|
            0 <= t < (k - 1) as nat && t + 1 < s.skip(1).len() implies !(#[trigger] s.skip(1)[t]
            == pattern[0] && s.skip(1)[t + 1] == pattern[1]) by {
            assert(s.skip(1)[t] == s[t + 1]);
            assert(s.skip(1)[t + 1] == s[t + 2]);
        }
        lemma_no_occurrence_from_pair(s.skip(1), pattern, (k - 1) as nat);
    }
}

/// Whether `pattern` stands at index `i` of `s`.
fn pattern_at(s: &str, i: usize, pattern: &str) -> (matched: bool)
    requires
        s@.len() <= usize::MAX,
        i + pattern@.len() <= s@.len(),
    ensures
        matched == is_prefix_of(pattern@, s@.skip(i as int)),
{
    let p_len = pattern.unicode_len();
    let mut j: usize = 0;
    while j < p_len
        invariant
            j <= p_len,
            p_len == pattern@.len(),
            s@.len() <= usize::MAX,
            i + p_len <= s@.len(),
            forall|t: int| 0 <= t < j ==> s@[i + t] == pattern@[t],
        decreases p_len - j,
    {
        let sc = s.get_char(i + j);
        let pc = pattern.get_char(j);
        if sc != pc {
            proof {
                lemma_is_prefix_iff_take(pattern@, s@.skip(i as int));
                assert(s@.skip(i as int).take(p_len as int)[j as int] == s@[i + j]);
            }
            return false;
        }
        j = j + 1;
    }
    proof {
        lemma_is_prefix_iff_take(pattern@, s@.skip(i as int));
        assert(s@.skip(i as int).take(p_len as int) =~= pattern@);
    }
    true
}

/// Every occurrence of `pattern` in `s` replaced by `replacement`, left to
/// right, replaced text never rescanned. The textual engine behind both
/// substitution points of the templates below.
pub fn replace_all(s: &str, pattern: &str, replacement: &str) -> (result: String)
    ensures
        result@ == replace_all_spec(s@, pattern@, replacement@),
{
    let s_len = s.unicode_len();
    let p_len = pattern.unicode_len();
    if p_len == 0 {
        return s.to_owned();
    }
    let mut out = String::new();
    let mut i: usize = 0;
    proof {
        assert(s@.skip(0) =~= s@);
    }
    while i < s_len
        invariant
            i <= s_len,
            s_len == s@.len(),
            p_len == pattern@.len(),
            p_len > 0,
            out@ + replace_all_spec(s@.skip(i as int), pattern@, replacement@)
                == replace_all_spec(s@, pattern@, replacement@),
        decreases s_len - i,
    {
        let ghost rest = s@.skip(i as int);
        if p_len <= s_len - i && pattern_at(s, i, pattern) {
            out.append(replacement);
            proof {
                assert(rest.skip(p_len as int) =~= s@.skip(i + p_len));
                assert(replace_all_spec(rest, pattern@, replacement@) == replacement@
                    + replace_all_spec(s@.skip(i + p_len), pattern@, replacement@));
            }
            i = i + p_len;
        } else {
            let c = s.substring_char(i, i + 1);
            out.append(c);
            proof {
                assert(c@ =~= seq![s@[i as int]]);
                assert(rest.skip(1) =~= s@.skip(i + 1));
                if p_len <= s_len - i {
                    assert(replace_all_spec(rest, pattern@, replacement@) == seq![rest[0]]
                        + replace_all_spec(s@.skip(i + 1), pattern@, replacement@));
                } else {
                    assert(rest.len() < p_len);
                    assert(replace_all_spec(rest, pattern@, replacement@) == rest);
                    assert(replace_all_spec(s@.skip(i + 1), pattern@, replacement@) == s@.skip(i
                        + 1));
                }
                assert(rest =~= seq![rest[0]] + rest.skip(1));
                assert(rest[0] == s@[i as int]);
            }
            i = i + 1;
        }
    }
    proof {
        assert(s@.skip(s_len as int) =~= Seq::<char>::empty());
        assert(replace_all_spec(Seq::<char>::empty(), pattern@, replacement@)
            == Seq::<char>::empty());
        assert(out@ + Seq::<char>::empty() =~= out@);
    }
    out
}

/// The insert template: four positional value parameters, and the
/// column-list placeholder in the returning clause.
pub open spec fn add_user_template() -> Seq<char> {
    "INSERT INTO users(email, first_name, last_name, username) VALUES ($1, $2, $3, $4) RETURNING $table_fields"@
}

/// The select template: the column-list placeholder and the predicate
/// placeholder.
pub open spec fn get_users_template() -> Seq<char> {
    "SELECT $table_fields FROM users $where"@
}

/// The delete template: exact key equality, bound as a parameter; it has
/// no substitution point.
pub open spec fn delete_user_template() -> Seq<char> {
    "DELETE FROM users WHERE username = $1"@
}

/// The predicate placeholder's substitute: `WHERE` followed by the
/// caller's condition verbatim when a filter is present, nothing at all
/// when it is absent.
pub open spec fn where_clause(filter: Option<FilterView>) -> Seq<char> {
    match filter {
        Some(f) => "WHERE "@ + f.condition,
        None => Seq::<char>::empty(),
    }
}

/// The finished insert statement text.
pub open spec fn add_user_sql() -> Seq<char> {
    "INSERT INTO users(email, first_name, last_name, username) VALUES ($1, $2, $3, $4) RETURNING "@
        + table_fields()
}

/// The finished select statement text for an optional filter.
pub open spec fn get_users_sql(filter: Option<FilterView>) -> Seq<char> {
    "SELECT "@ + table_fields() + " FROM users "@ + where_clause(filter)
}

/// The filter value of an optional borrowed filter.
pub open spec fn opt_filter_view(filter: Option<&Filter>) -> Option<FilterView> {
    match filter {
        Some(f) => Some(f@),
        None => None,
    }
}

/// Substituting the column list into the insert template appends it to
/// the template's returning clause, whatever the substitute text is.
pub proof fn lemma_add_user_substitution(replacement: Seq<char>)
    ensures
        replace_all_spec(add_user_template(), "$table_fields"@, replacement)
            == "INSERT INTO users(email, first_name, last_name, username) VALUES ($1, $2, $3, $4) RETURNING "@
            + replacement,
{
    let prefix =
        "INSERT INTO users(email, first_name, last_name, username) VALUES ($1, $2, $3, $4) RETURNING "@;
    let pattern = "$table_fields"@;
    let empty = Seq::<char>::empty();
    reveal_strlit(
        "INSERT INTO users(email, first_name, last_name, username) VALUES ($1, $2, $3, $4) RETURNING $table_fields",
    );
    reveal_strlit(
        "INSERT INTO users(email, first_name, last_name, username) VALUES ($1, $2, $3, $4) RETURNING ",
    );
    reveal_strlit("$table_fields");
    assert(add_user_template() =~= prefix + pattern + empty);
    let s = prefix + pattern + empty;
    assert forall|t: int|
        0 <= t < prefix.len() && t + 1 < s.len() implies !(#[trigger] s[t] == pattern[0] && s[t + 1]
        == pattern[1]) by {
        assert(s[t] == prefix[t]);
        if t + 1 < prefix.len() {
            assert(s[t + 1] == prefix[t + 1]);
        }
    }
    lemma_no_occurrence_from_pair(s, pattern, prefix.len());
    assert(!contains_pattern(empty, pattern));
    lemma_replace_all_single(prefix, pattern, empty, replacement);
    assert(prefix + replacement + empty =~= prefix + replacement);
}

/// Substituting the column list and then the predicate into the select
/// template yields the select text with the predicate appended, whatever
/// the predicate text is.
pub proof fn lemma_get_users_substitution(where_text: Seq<char>)
    ensures
        replace_all_spec(
            replace_all_spec(get_users_template(), "$table_fields"@, table_fields()),
            "$where"@,
            where_text,
        ) == "SELECT "@ + table_fields() + " FROM users "@ + where_text,
{
    let empty = Seq::<char>::empty();
    reveal_strlit("SELECT $table_fields FROM users $where");
    reveal_strlit("SELECT ");
    reveal_strlit("$table_fields");
    reveal_strlit(" FROM users $where");
    reveal_strlit(" FROM users ");
    reveal_strlit("$where");
    reveal_strlit("users.email, users.first_name, users.last_name, users.username");
    let prefix1 = "SELECT "@;
    let pattern1 = "$table_fields"@;
    let suffix1 = " FROM users $where"@;
    assert(get_users_template() =~= prefix1 + pattern1 + suffix1);
    let s1 = prefix1 + pattern1 + suffix1;
    assert forall|t: int|
        0 <= t < prefix1.len() && t + 1 < s1.len() implies !(#[trigger] s1[t] == pattern1[0] && s1[t
        + 1] == pattern1[1]) by {
        assert(s1[t] == prefix1[t]);
    }
    lemma_no_occurrence_from_pair(s1, pattern1, prefix1.len());
    assert(!contains_pattern(suffix1, pattern1)) by {
        reveal_with_fuel(contains_pattern, 20);
        reveal_with_fuel(is_prefix_of, 3);
    }
    lemma_replace_all_single(prefix1, pattern1, suffix1, table_fields());
    let step1 = prefix1 + table_fields() + suffix1;
    assert(replace_all_spec(get_users_template(), pattern1, table_fields()) == step1);

    let prefix2 = "SELECT "@ + table_fields() + " FROM users "@;
    let pattern2 = "$where"@;
    assert(step1 =~= prefix2 + pattern2 + empty);
    let s2 = prefix2 + pattern2 + empty;
    assert forall|t: int|
        0 <= t < prefix2.len() && t + 1 < s2.len() implies !(#[trigger] s2[t] == pattern2[0] && s2[t
        + 1] == pattern2[1]) by {
        assert(s2[t] == prefix2[t]);
        let fields = table_fields();
        if t < 7 {
            assert(prefix2[t] == "SELECT "@[t]);
        } else if t < 7 + fields.len() {
            assert(prefix2[t] == fields[t - 7]);
        } else {
            assert(prefix2[t] == " FROM users "@[t - 7 - fields.len()]);
        }
    }
    lemma_no_occurrence_from_pair(s2, pattern2, prefix2.len());
    assert(!contains_pattern(empty, pattern2));
    lemma_replace_all_single(prefix2, pattern2, empty, where_text);
    assert(replace_all_spec(step1, pattern2, where_text) == prefix2 + where_text + empty);
    assert(prefix2 + where_text + empty =~= prefix2 + where_text);
}

/// The insert statement: the template's column-list placeholder replaced
/// by the record's column list.
pub fn build_add_user_statement() -> (sql: String)
    ensures
        sql@ == replace_all_spec(add_user_template(), "$table_fields"@, table_fields()),
        sql@ == add_user_sql(),
{
    let fields = User::sql_table_fields();
    let sql = replace_all(
        "INSERT INTO users(email, first_name, last_name, username) VALUES ($1, $2, $3, $4) RETURNING $table_fields",
        "$table_fields",
        fields.as_str(),
    );
    proof {
        lemma_add_user_substitution(table_fields());
    }
    sql
}

/// The select statement: the column list always substituted, the
/// predicate placeholder replaced by `WHERE <condition>` — the condition
/// verbatim — when a filter is present, and by nothing when it is absent.
pub fn build_get_users_statement(filter: Option<&Filter>) -> (sql: String)
    ensures
        sql@ == replace_all_spec(
            replace_all_spec(get_users_template(), "$table_fields"@, table_fields()),
            "$where"@,
            where_clause(opt_filter_view(filter)),
        ),
        sql@ == get_users_sql(opt_filter_view(filter)),
{
    let fields = User::sql_table_fields();
    let with_fields = replace_all(
        "SELECT $table_fields FROM users $where",
        "$table_fields",
        fields.as_str(),
    );
    let where_text: String = match filter {
        Some(f) => {
            let mut w = String::from_str("WHERE ");
            w.append(f.condition.as_str());
            w
        },
        None => String::new(),
    };
    assert(where_text@ == where_clause(opt_filter_view(filter)));
    let sql = replace_all(with_fields.as_str(), "$where", where_text.as_str());
    proof {
        lemma_get_users_substitution(where_clause(opt_filter_view(filter)));
    }
    sql
}

/// The delete statement; it has no substitution point, so the template
/// is the statement.
pub fn build_delete_user_statement() -> (sql: String)
    ensures
        sql@ == delete_user_template(),
{
    String::from_str("DELETE FROM users WHERE username = $1")
}

/// Law: the select text for a present filter is the unfiltered select
/// text followed by `WHERE` and the caller's condition, verbatim; the
/// two texts differ in nothing but the predicate region.
pub proof fn lemma_filter_spliced_verbatim(condition: Seq<char>)
    ensures
        get_users_sql(Some(FilterView { condition })) == get_users_sql(None) + "WHERE "@
            + condition,
{
    assert(get_users_sql(Some(FilterView { condition })) =~= get_users_sql(None) + "WHERE "@
        + condition);
}

/// The keyed-lookup filter the read and delete operations use: exact
/// equality on the username, interpolated into the raw predicate text.
pub fn username_condition(username: &str) -> (filter: Filter)
    ensures
        filter@.condition == "users.username = '"@ + username@ + "'"@,
{
    let mut condition = String::from_str("users.username = '");
    condition.append(username);
    condition.append("'");
    Filter { condition }
}

} // verus!
