//! Parsers for the text that the operating systems' network tools print.
//! Each is stated over the character model of `crate::text`.

use vstd::prelude::*;

use crate::net::{ip_addr_syntax, parse_ip_addr};
use crate::text::{
    char_vecs_view, chars_of, contains_chars, has_infix, eq_ignore_ascii_case, join, join_with_spaces, lines,
    lines_after_header, same_chars, same_ignoring_ascii_case, split_lines, split_words, string_of,
    strings_view, trim, trim_chars, trim_start_char, trim_start_matches_char, words,
};

verus! {

/// The entries that `f` keeps from `ls`, in order.
pub open spec fn collect_some(ls: Seq<Seq<char>>, f: spec_fn(Seq<char>) -> Option<Seq<char>>) -> Seq<
    Seq<char>,
>
    decreases ls.len(),
{
    if ls.len() == 0 {
        Seq::<Seq<char>>::empty()
    } else {
        let r = collect_some(ls.drop_last(), f);
        match f(ls.last()) {
            Some(x) => r.push(x),
            None => r,
        }
    }
}

proof fn lemma_collect_some_step(
    ls: Seq<Seq<char>>,
    i: int,
    f: spec_fn(Seq<char>) -> Option<Seq<char>>,
)
    requires
        0 <= i < ls.len(),
    ensures
        collect_some(ls.take(i + 1), f) == match f(ls[i]) {
            Some(x) => collect_some(ls.take(i), f).push(x),
            None => collect_some(ls.take(i), f),
        },
{
    assert(ls.take(i + 1).drop_last() =~= ls.take(i));
    assert(ls.take(i + 1).last() == ls[i]);
}

/// `collect_some(ls, f)` holds what `f` gives for the lines it accepts, at
/// strictly increasing line indices, and one entry for every such line: the
/// returned indices witness it.
pub proof fn lemma_collect_some_selects(ls: Seq<Seq<char>>, f: spec_fn(Seq<char>) -> Option<Seq<char>>) -> (idx: Seq<int>)
    ensures
        idx.len() == collect_some(ls, f).len(),
        forall|k: int|
            0 <= k < idx.len() ==> 0 <= #[trigger] idx[k] < ls.len() && f(ls[idx[k]]) == Some(
                collect_some(ls, f)[k],
            ),
        forall|k: int, l: int| 0 <= k < l < idx.len() ==> idx[k] < idx[l],
        forall|i: int|
            0 <= i < ls.len() && (#[trigger] f(ls[i])) is Some ==> exists|k: int|
                0 <= k < idx.len() && idx[k] == i,
    decreases ls.len(),
{
    if ls.len() == 0 {
        Seq::<int>::empty()
    } else {
        let n = ls.len() as int;
        let prev = lemma_collect_some_selects(ls.drop_last(), f);
        let r = collect_some(ls.drop_last(), f);
        assert forall|k: int| 0 <= k < prev.len() implies ls[#[trigger] prev[k]]
            == ls.drop_last()[prev[k]] by {}
        match f(ls.last()) {
            Some(x) => {
                let idx = prev.push(n - 1);
                assert(collect_some(ls, f) == r.push(x));
                assert forall|i: int| 0 <= i < ls.len() && (#[trigger] f(ls[i])) is Some implies exists|k: int|
                    0 <= k < idx.len() && idx[k] == i by {
                    if i == n - 1 {
                        assert(idx[prev.len() as int] == i);
                    } else {
                        assert(ls.drop_last()[i] == ls[i]);
                        let k = choose|k: int| 0 <= k < prev.len() && prev[k] == i;
                        assert(idx[k] == i);
                    }
                }
                idx
            },
            None => {
                assert(collect_some(ls, f) == r);
                assert forall|i: int| 0 <= i < ls.len() && (#[trigger] f(ls[i])) is Some implies exists|k: int|
                    0 <= k < prev.len() && prev[k] == i by {
                    assert(i != n - 1);
                    assert(ls.drop_last()[i] == ls[i]);
                }
                prev
            },
        }
    }
}

// ---------------------------------------------------------------- Linux

/// The destination column that marks the default route.
pub open spec fn default_destination() -> Seq<char> {
    seq!['0', '0', '0', '0', '0', '0', '0', '0']
}

/// Scans routing-table rows: the first row whose second column is the default
/// destination names the interface; rows with fewer than two columns (such as
/// blank lines) are passed over.
pub open spec fn route_scan(rows: Seq<Seq<char>>) -> Option<Seq<char>>
    decreases rows.len(),
{
    if rows.len() == 0 {
        None
    } else {
        let cols = words(rows[0]);
        if cols.len() >= 2 && cols[1] == default_destination() {
            Some(cols[0])
        } else {
            route_scan(rows.drop_first())
        }
    }
}

/// The interface that owns the default route in a `/proc/net/route` table
/// (its header line is skipped).
pub open spec fn default_route_iface(table: Seq<char>) -> Option<Seq<char>> {
    route_scan(lines_after_header(table))
}

proof fn lemma_route_scan_first_match(rows: Seq<Seq<char>>, k: int)
    requires
        0 <= k < rows.len(),
        words(rows[k]).len() >= 2,
        words(rows[k])[1] == seq!['0', '0', '0', '0', '0', '0', '0', '0'],
        forall|j: int|
            0 <= j < k ==> !(words(#[trigger] rows[j]).len() >= 2 && words(rows[j])[1] == seq![
                '0',
                '0',
                '0',
                '0',
                '0',
                '0',
                '0',
                '0',
            ]),
    ensures
        route_scan(rows) == Some(words(rows[k])[0]),
    decreases k,
{
    if k > 0 {
        let t = rows.drop_first();
        assert(!(words(rows[0]).len() >= 2 && words(rows[0])[1] == default_destination()));
        assert forall|j: int| 0 <= j < k - 1 implies !(words(#[trigger] t[j]).len() >= 2 && words(
            t[j],
        )[1] == seq!['0', '0', '0', '0', '0', '0', '0', '0']) by {
            assert(t[j] == rows[j + 1]);
        }
        assert(t[k - 1] == rows[k]);
        lemma_route_scan_first_match(t, k - 1);
    }
}

proof fn lemma_route_scan_no_match(rows: Seq<Seq<char>>)
    requires
        forall|j: int|
            0 <= j < rows.len() ==> !(words(#[trigger] rows[j]).len() >= 2 && words(rows[j])[1]
                == seq!['0', '0', '0', '0', '0', '0', '0', '0']),
    ensures
        route_scan(rows) is None,
    decreases rows.len(),
{
    if rows.len() > 0 {
        let t = rows.drop_first();
        assert(!(words(rows[0]).len() >= 2 && words(rows[0])[1] == default_destination()));
        assert forall|j: int| 0 <= j < t.len() implies !(words(#[trigger] t[j]).len() >= 2
            && words(t[j])[1] == seq!['0', '0', '0', '0', '0', '0', '0', '0']) by {
            assert(t[j] == rows[j + 1]);
        }
        lemma_route_scan_no_match(t);
    }
}

/// The default-route interface is the first column of the first line after
/// the header whose second whitespace-separated column is `00000000`; when
/// no such line follows the header there is none. The header line never
/// counts, and a later default-route line never overrides an earlier one.
pub proof fn law_default_route_is_first_matching_row(table: Seq<char>)
    ensures
        forall|k: int|
            1 <= k < lines(table).len() && words(#[trigger] lines(table)[k]).len() >= 2 && words(
                lines(table)[k],
            )[1] == seq!['0', '0', '0', '0', '0', '0', '0', '0'] && (forall|j: int|
                1 <= j < k ==> !(words(#[trigger] lines(table)[j]).len() >= 2 && words(
                    lines(table)[j],
                )[1] == seq!['0', '0', '0', '0', '0', '0', '0', '0'])) ==> default_route_iface(
                table,
            ) == Some(words(lines(table)[k])[0]),
        (forall|j: int|
            1 <= j < lines(table).len() ==> !(words(#[trigger] lines(table)[j]).len() >= 2 && words(
                lines(table)[j],
            )[1] == seq!['0', '0', '0', '0', '0', '0', '0', '0'])) ==> default_route_iface(table)
            is None,
{
    let ls = lines(table);
    let rows = lines_after_header(table);
    assert forall|k: int|
        1 <= k < ls.len() && words(#[trigger] ls[k]).len() >= 2 && words(ls[k])[1] == seq![
            '0',
            '0',
            '0',
            '0',
            '0',
            '0',
            '0',
            '0',
        ] && (forall|j: int|
            1 <= j < k ==> !(words(#[trigger] ls[j]).len() >= 2 && words(ls[j])[1] == seq![
                '0',
                '0',
                '0',
                '0',
                '0',
                '0',
                '0',
                '0',
            ])) implies default_route_iface(table) == Some(words(ls[k])[0]) by {
        assert(rows == ls.drop_first());
        assert(rows[k - 1] == ls[k]);
        assert forall|j: int| 0 <= j < k - 1 implies !(words(#[trigger] rows[j]).len() >= 2 && words(
            rows[j],
        )[1] == seq!['0', '0', '0', '0', '0', '0', '0', '0']) by {
            assert(rows[j] == ls[j + 1]);
        }
        lemma_route_scan_first_match(rows, k - 1);
    }
    if forall|j: int|
        1 <= j < ls.len() ==> !(words(#[trigger] ls[j]).len() >= 2 && words(ls[j])[1] == seq![
            '0',
            '0',
            '0',
            '0',
            '0',
            '0',
            '0',
            '0',
        ]) {
        if ls.len() > 0 {
            assert forall|j: int| 0 <= j < rows.len() implies !(words(#[trigger] rows[j]).len()
                >= 2 && words(rows[j])[1] == seq!['0', '0', '0', '0', '0', '0', '0', '0']) by {
                assert(rows[j] == ls[j + 1]);
            }
        }
        lemma_route_scan_no_match(rows);
    }
}

/// The view of an optional string.
pub open spec fn opt_string_view(o: Option<String>) -> Option<Seq<char>> {
    match o {
        Some(s) => Some(s@),
        None => None,
    }
}

/// Linux: the interface owning the default route, from `/proc/net/route`
/// (destination column `00000000`).
pub fn parse_default_route_iface(table: &str) -> (r: Option<String>)
    ensures
        opt_string_view(r) == default_route_iface(table@),
{
    let chars = chars_of(table);
    let ls = split_lines(&chars);
    let dest = chars_of("00000000");
    proof {
        reveal_strlit("00000000");
        assert(dest@ =~= default_destination());
    }
    let n = ls.len();
    let ghost all = char_vecs_view(ls@);
    let ghost rows = lines_after_header(table@);
    if n == 0 {
        return None;
    }
    let mut i: usize = 1;
    proof {
        assert(rows =~= all.subrange(1, n as int));
    }
    while i < n
        invariant
            n == ls@.len(),
            1 <= i <= n,
            all == char_vecs_view(ls@),
            rows == lines_after_header(table@),
            route_scan(rows) == route_scan(all.subrange(i as int, n as int)),
            dest@ == default_destination(),
        decreases n - i,
    {
        let cols = split_words(&ls[i]);
        proof {
            let rest = all.subrange(i as int, n as int);
            assert(rest[0] == ls@[i as int]@);
            assert(rest.drop_first() =~= all.subrange(i + 1, n as int));
        }
        let ghost rest = all.subrange(i as int, n as int);
        let ghost w = words(rest[0]);
        proof {
            assert(w == char_vecs_view(cols@));
            assert(w.len() == cols@.len());
        }
        if cols.len() >= 2 && same_chars(&cols[1], &dest) {
            proof {
                assert(w[0] == cols@[0]@);
                assert(w[1] == cols@[1]@);
            }
            let found = string_of(&cols[0]);
            proof {
                assert(route_scan(rest) == Some(w[0]));
            }
            return Some(found);
        }
        proof {
            if cols@.len() >= 2 {
                assert(w[1] == cols@[1]@);
            }
        }
        i = i + 1;
    }
    None
}

// ---------------------------------------------------------------- Windows

/// The state column that marks a connected interface.
pub open spec fn connected_word() -> Seq<char> {
    seq!['c', 'o', 'n', 'n', 'e', 'c', 't', 'e', 'd']
}

/// The interface alias a `netsh interface show interface` row reports, when
/// the row has at least four columns and its state column reads `connected`
/// in any ASCII case: the fourth column onwards, joined by single spaces.
pub open spec fn netsh_entry(line: Seq<char>) -> Option<Seq<char>> {
    let cols = words(line);
    if cols.len() >= 4 && eq_ignore_ascii_case(cols[1], connected_word()) {
        Some(join(cols.skip(3), seq![' ']))
    } else {
        None
    }
}

pub open spec fn netsh_entry_fn() -> spec_fn(Seq<char>) -> Option<Seq<char>> {
    |line: Seq<char>| netsh_entry(line)
}

/// The connected interface aliases in `netsh` output, in order.
pub open spec fn netsh_interfaces(out: Seq<char>) -> Seq<Seq<char>> {
    collect_some(lines(out), netsh_entry_fn())
}

/// Windows: connected interface aliases from `netsh interface show interface`.
/// Columns: `Admin State | State | Type | Interface Name…`.
pub fn parse_netsh_interfaces(stdout: &str) -> (r: Vec<String>)
    ensures
        strings_view(r@) == netsh_interfaces(stdout@),
{
    let chars = chars_of(stdout);
    let ls = split_lines(&chars);
    let connected = chars_of("connected");
    proof {
        reveal_strlit("connected");
        assert(connected@ =~= connected_word());
    }
    let ghost all = char_vecs_view(ls@);
    let mut names: Vec<String> = Vec::new();
    let n = ls.len();
    let mut i: usize = 0;
    while i < n
        invariant
            n == ls@.len(),
            i <= n,
            all == char_vecs_view(ls@),
            all == lines(stdout@),
            connected@ == connected_word(),
            strings_view(names@) =~= collect_some(all.take(i as int), netsh_entry_fn()),
        decreases n - i,
    {
        let cols = split_words(&ls[i]);
        proof {
            lemma_collect_some_step(all, i as int, netsh_entry_fn());
            assert(all[i as int] == ls@[i as int]@);
        }
        if cols.len() >= 4 && same_ignoring_ascii_case(&cols[1], &connected) {
            let joined = join_with_spaces(&cols, 3);
            let name = string_of(&joined);
            let ghost before = names@;
            names.push(name);
            proof {
                assert(strings_view(names@) =~= strings_view(before).push(name@));
            }
        }
        i = i + 1;
    }
    proof {
        assert(all.take(n as int) =~= all);
    }
    names
}

/// Every row whose second column reads `connected` in any ASCII case and
/// that has at least four columns gives one alias (its fourth column onwards,
/// joined by single spaces), and nothing else does: the aliases are exactly
/// those of such rows, in the order of the rows.
pub proof fn law_netsh_lists_connected_rows(out: Seq<char>)
    ensures
        forall|i: int|
            0 <= i < lines(out).len() && words(#[trigger] lines(out)[i]).len() >= 4
                && eq_ignore_ascii_case(
                words(lines(out)[i])[1],
                seq!['c', 'o', 'n', 'n', 'e', 'c', 't', 'e', 'd'],
            ) ==> netsh_interfaces(out).contains(join(words(lines(out)[i]).skip(3), seq![' '])),
        exists|idx: Seq<int>|
            #![trigger idx.len()]
            idx.len() == netsh_interfaces(out).len() && (forall|k: int|
                0 <= k < idx.len() ==> 0 <= #[trigger] idx[k] < lines(out).len() && words(
                    lines(out)[idx[k]],
                ).len() >= 4 && eq_ignore_ascii_case(
                    words(lines(out)[idx[k]])[1],
                    seq!['c', 'o', 'n', 'n', 'e', 'c', 't', 'e', 'd'],
                ) && netsh_interfaces(out)[k] == join(words(lines(out)[idx[k]]).skip(3), seq![' ']))
                && (forall|k: int, l: int| 0 <= k < l < idx.len() ==> idx[k] < idx[l]) && (forall|
                i: int,
            |
                0 <= i < lines(out).len() && words(#[trigger] lines(out)[i]).len() >= 4
                    && eq_ignore_ascii_case(
                    words(lines(out)[i])[1],
                    seq!['c', 'o', 'n', 'n', 'e', 'c', 't', 'e', 'd'],
                ) ==> exists|k: int| 0 <= k < idx.len() && idx[k] == i),
{
    let ls = lines(out);
    let f = netsh_entry_fn();
    let r = netsh_interfaces(out);
    let idx = lemma_collect_some_selects(ls, f);
    assert forall|i: int|
        0 <= i < ls.len() && words(#[trigger] ls[i]).len() >= 4 && eq_ignore_ascii_case(
            words(ls[i])[1],
            seq!['c', 'o', 'n', 'n', 'e', 'c', 't', 'e', 'd'],
        ) implies r.contains(join(words(ls[i]).skip(3), seq![' '])) && exists|k: int|
        0 <= k < idx.len() && idx[k] == i by {
        assert(f(ls[i]) == netsh_entry(ls[i]));
        assert(f(ls[i]) is Some);
        let k = choose|k: int| 0 <= k < idx.len() && idx[k] == i;
        assert(r[k] == join(words(ls[i]).skip(3), seq![' ']));
    }
    assert forall|k: int| 0 <= k < idx.len() implies 0 <= #[trigger] idx[k] < ls.len() && words(
        ls[idx[k]],
    ).len() >= 4 && eq_ignore_ascii_case(
        words(ls[idx[k]])[1],
        seq!['c', 'o', 'n', 'n', 'e', 'c', 't', 'e', 'd'],
    ) && r[k] == join(words(ls[idx[k]]).skip(3), seq![' ']) by {
        assert(f(ls[idx[k]]) == netsh_entry(ls[idx[k]]));
    }
}

// ---------------------------------------------------------------- macOS

/// A `networksetup -listallnetworkservices` row as a service name: leading
/// `*` (the disabled mark) and surrounding whitespace removed; blank rows give
/// no name.
pub open spec fn service_entry(line: Seq<char>) -> Option<Seq<char>> {
    let t = trim(trim_start_char(line, '*'));
    if t.len() > 0 {
        Some(t)
    } else {
        None
    }
}

pub open spec fn service_entry_fn() -> spec_fn(Seq<char>) -> Option<Seq<char>> {
    |line: Seq<char>| service_entry(line)
}

/// The service names in `networksetup` output, after its header line.
pub open spec fn network_services(out: Seq<char>) -> Seq<Seq<char>> {
    collect_some(lines_after_header(out), service_entry_fn())
}

/// macOS: service names from `networksetup -listallnetworkservices`. The first
/// line is an informational header; a leading `*` marks a disabled service.
pub fn parse_network_services(stdout: &str) -> (r: Vec<String>)
    ensures
        strings_view(r@) == network_services(stdout@),
        forall|i: int| 0 <= i < r@.len() ==> #[trigger] r@[i]@.len() > 0,
{
    let chars = chars_of(stdout);
    let ls = split_lines(&chars);
    let ghost all = char_vecs_view(ls@);
    let mut names: Vec<String> = Vec::new();
    let n = ls.len();
    if n == 0 {
        proof {
            assert(network_services(stdout@) =~= Seq::<Seq<char>>::empty());
        }
        return names;
    }
    let ghost rows = all.drop_first();
    proof {
        assert(rows.take(0) =~= Seq::<Seq<char>>::empty());
    }
    let mut i: usize = 1;
    while i < n
        invariant
            n == ls@.len(),
            1 <= i <= n,
            all == char_vecs_view(ls@),
            rows == all.drop_first(),
            rows == lines_after_header(stdout@),
            strings_view(names@) =~= collect_some(rows.take(i - 1), service_entry_fn()),
            forall|k: int| 0 <= k < names@.len() ==> #[trigger] names@[k]@.len() > 0,
        decreases n - i,
    {
        let stripped = trim_start_matches_char(&ls[i], '*');
        let t = trim_chars(&stripped);
        proof {
            lemma_collect_some_step(rows, i - 1, service_entry_fn());
            assert(rows[i - 1] == ls@[i as int]@);
        }
        if t.len() > 0 {
            let name = string_of(&t);
            let ghost before = names@;
            names.push(name);
            proof {
                assert(strings_view(names@) =~= strings_view(before).push(name@));
            }
        }
        i = i + 1;
    }
    proof {
        assert(rows.take(n - 1) =~= rows);
    }
    names
}

/// Every line after the header that is not blank once its leading `*` marks
/// and surrounding whitespace are removed names one service (what is left),
/// and nothing else does: the header line never counts, and the services
/// come exactly from such lines, in their order.
pub proof fn law_services_after_header(out: Seq<char>)
    ensures
        forall|i: int|
            1 <= i < lines(out).len() && trim(trim_start_char(#[trigger] lines(out)[i], '*')).len()
                > 0 ==> network_services(out).contains(trim(trim_start_char(lines(out)[i], '*'))),
        exists|idx: Seq<int>|
            #![trigger idx.len()]
            idx.len() == network_services(out).len() && (forall|k: int|
                0 <= k < idx.len() ==> 1 <= #[trigger] idx[k] < lines(out).len() && trim(
                    trim_start_char(lines(out)[idx[k]], '*'),
                ).len() > 0 && network_services(out)[k] == trim(
                    trim_start_char(lines(out)[idx[k]], '*'),
                )) && (forall|k: int, l: int| 0 <= k < l < idx.len() ==> idx[k] < idx[l]) && (forall|
                i: int,
            |
                1 <= i < lines(out).len() && trim(trim_start_char(#[trigger] lines(out)[i], '*')).len()
                    > 0 ==> exists|k: int| 0 <= k < idx.len() && idx[k] == i),
{
    let ls = lines(out);
    let rows = lines_after_header(out);
    let f = service_entry_fn();
    let r = network_services(out);
    let pos = lemma_collect_some_selects(rows, f);
    let idx = pos.map_values(|j: int| j + 1);
    assert forall|i: int|
        1 <= i < ls.len() && trim(trim_start_char(#[trigger] ls[i], '*')).len() > 0 implies r.contains(
        trim(trim_start_char(ls[i], '*')),
    ) && exists|k: int| 0 <= k < idx.len() && idx[k] == i by {
        assert(rows[i - 1] == ls[i]);
        assert(f(rows[i - 1]) == service_entry(rows[i - 1]));
        let k = choose|k: int| 0 <= k < pos.len() && pos[k] == i - 1;
        assert(idx[k] == i);
        assert(r[k] == trim(trim_start_char(ls[i], '*')));
    }
    assert forall|k: int| 0 <= k < idx.len() implies 1 <= #[trigger] idx[k] < ls.len() && trim(
        trim_start_char(ls[idx[k]], '*'),
    ).len() > 0 && r[k] == trim(trim_start_char(ls[idx[k]], '*')) by {
        assert(idx[k] == pos[k] + 1);
        assert(rows[pos[k]] == ls[idx[k]]);
        assert(f(rows[pos[k]]) == service_entry(rows[pos[k]]));
    }
    assert forall|k: int, l: int| 0 <= k < l < idx.len() implies idx[k] < idx[l] by {
        assert(idx[k] == pos[k] + 1 && idx[l] == pos[l] + 1);
    }
}

/// The sentence `networksetup -getdnsservers` prints when no servers are set.
pub open spec fn no_dns_servers_marker() -> Seq<char> {
    "aren't any DNS Servers"@
}

/// The trimmed lines of `networksetup -getdnsservers` output, or none at all
/// when the output says that no servers are set.
pub open spec fn dns_candidates(out: Seq<char>) -> Seq<Seq<char>> {
    if has_infix(out, no_dns_servers_marker()) {
        Seq::<Seq<char>>::empty()
    } else {
        lines(out).map_values(|l: Seq<char>| trim(l))
    }
}

/// The items whose flag is set, in order.
pub open spec fn flagged(items: Seq<Seq<char>>, flags: Seq<bool>) -> Seq<Seq<char>>
    decreases items.len(),
{
    if items.len() == 0 || flags.len() == 0 {
        Seq::<Seq<char>>::empty()
    } else {
        let r = flagged(items.drop_last(), flags.drop_last());
        if flags.last() {
            r.push(items.last())
        } else {
            r
        }
    }
}

/// `flagged(items, flags)` picks items at strictly increasing indices, each
/// with its flag set, and picks every item whose flag is set: the returned
/// indices witness it.
pub proof fn lemma_flagged_selects(items: Seq<Seq<char>>, flags: Seq<bool>) -> (idx: Seq<int>)
    requires
        items.len() == flags.len(),
    ensures
        idx.len() == flagged(items, flags).len(),
        forall|k: int|
            0 <= k < idx.len() ==> 0 <= #[trigger] idx[k] < items.len() && flags[idx[k]]
                && flagged(items, flags)[k] == items[idx[k]],
        forall|k: int, l: int| 0 <= k < l < idx.len() ==> idx[k] < idx[l],
        forall|i: int|
            0 <= i < items.len() && #[trigger] flags[i] ==> exists|k: int|
                0 <= k < idx.len() && idx[k] == i,
    decreases items.len(),
{
    if items.len() == 0 {
        Seq::<int>::empty()
    } else {
        let n = items.len() as int;
        let prev = lemma_flagged_selects(items.drop_last(), flags.drop_last());
        let r = flagged(items.drop_last(), flags.drop_last());
        assert forall|k: int| 0 <= k < prev.len() implies flags[#[trigger] prev[k]]
            && items[prev[k]] == items.drop_last()[prev[k]] by {
            assert(flags.drop_last()[prev[k]] == flags[prev[k]]);
        }
        if flags.last() {
            let idx = prev.push(n - 1);
            assert(flagged(items, flags) == r.push(items.last()));
            assert forall|i: int| 0 <= i < items.len() && #[trigger] flags[i] implies exists|k: int|
                0 <= k < idx.len() && idx[k] == i by {
                if i == n - 1 {
                    assert(idx[prev.len() as int] == i);
                } else {
                    assert(flags.drop_last()[i]);
                    let k = choose|k: int| 0 <= k < prev.len() && prev[k] == i;
                    assert(idx[k] == i);
                }
            }
            idx
        } else {
            assert(flagged(items, flags) == r);
            assert forall|i: int| 0 <= i < items.len() && #[trigger] flags[i] implies exists|k: int|
                0 <= k < prev.len() && prev[k] == i by {
                assert(i != n - 1);
                assert(flags.drop_last()[i]);
            }
            prev
        }
    }
}

/// The DNS server addresses in `networksetup -getdnsservers` output: the
/// trimmed lines that parse as IP addresses.
pub open spec fn dns_servers(out: Seq<char>) -> Seq<Seq<char>> {
    let c = dns_candidates(out);
    flagged(c, c.map_values(|t: Seq<char>| ip_addr_syntax(t)))
}

/// The candidate lines of `networksetup -getdnsservers` output (see
/// [`dns_candidates`]).
pub fn dns_server_candidates(stdout: &str) -> (r: Vec<String>)
    ensures
        strings_view(r@) == dns_candidates(stdout@),
{
    let chars = chars_of(stdout);
    let marker = chars_of("aren't any DNS Servers");
    let mut out: Vec<String> = Vec::new();
    if contains_chars(&chars, &marker) {
        proof {
            assert(strings_view(out@) =~= Seq::<Seq<char>>::empty());
        }
        return out;
    }
    let ls = split_lines(&chars);
    let ghost all = char_vecs_view(ls@);
    let n = ls.len();
    let mut i: usize = 0;
    while i < n
        invariant
            n == ls@.len(),
            i <= n,
            all == char_vecs_view(ls@),
            strings_view(out@) =~= all.take(i as int).map_values(|l: Seq<char>| trim(l)),
        decreases n - i,
    {
        let t = trim_chars(&ls[i]);
        let item = string_of(&t);
        let ghost before = out@;
        out.push(item);
        proof {
            assert(strings_view(out@) =~= strings_view(before).push(item@));
            assert(all.take(i + 1) =~= all.take(i as int).push(ls@[i as int]@));
        }
        i = i + 1;
    }
    proof {
        assert(all.take(n as int) =~= all);
    }
    out
}

/// The items whose flag is set, in order.
pub fn keep_flagged(items: Vec<String>, flags: &Vec<bool>) -> (r: Vec<String>)
    requires
        flags@.len() == items@.len(),
    ensures
        strings_view(r@) == flagged(strings_view(items@), flags@),
{
    let ghost all = strings_view(items@);
    let mut kept: Vec<String> = Vec::new();
    let n = items.len();
    let mut i: usize = 0;
    while i < n
        invariant
            n == items@.len(),
            n == flags@.len(),
            i <= n,
            all == strings_view(items@),
            strings_view(kept@) =~= flagged(all.take(i as int), flags@.take(i as int)),
        decreases n - i,
    {
        proof {
            assert(all.take(i + 1).drop_last() =~= all.take(i as int));
            assert(flags@.take(i + 1).drop_last() =~= flags@.take(i as int));
        }
        if flags[i] {
            let item = items[i].clone();
            let ghost before = kept@;
            kept.push(item);
            proof {
                assert(strings_view(kept@) =~= strings_view(before).push(item@));
            }
        }
        i = i + 1;
    }
    proof {
        assert(all.take(n as int) =~= all);
        assert(flags@.take(n as int) =~= flags@);
    }
    kept
}

/// macOS: DNS server IPs from `networksetup -getdnsservers <svc>`. Returns empty
/// when none are set (the command prints a sentence instead of IPs).
pub fn parse_dns_servers(stdout: &str) -> (r: Vec<String>)
    ensures
        strings_view(r@) == dns_servers(stdout@),
{
    let candidates = dns_server_candidates(stdout);
    let ghost c = strings_view(candidates@);
    let mut flags: Vec<bool> = Vec::new();
    let n = candidates.len();
    let mut i: usize = 0;
    while i < n
        invariant
            n == candidates@.len(),
            i <= n,
            c == strings_view(candidates@),
            flags@ =~= c.take(i as int).map_values(|t: Seq<char>| ip_addr_syntax(t)),
        decreases n - i,
    {
        let ok = parse_ip_addr(candidates[i].as_str()).is_some();
        flags.push(ok);
        proof {
            assert(c.take(i + 1) =~= c.take(i as int).push(candidates@[i as int]@));
        }
        i = i + 1;
    }
    proof {
        assert(c.take(n as int) =~= c);
    }
    keep_flagged(candidates, &flags)
}

/// Output that says no servers are set gives none. Otherwise every line that,
/// trimmed, is an IP address gives that address, and nothing else is given:
/// the servers are exactly those lines, trimmed, in their order.
pub proof fn law_dns_servers_are_address_lines(out: Seq<char>)
    ensures
        has_infix(out, "aren't any DNS Servers"@) ==> dns_servers(out).len() == 0,
        !has_infix(out, "aren't any DNS Servers"@) ==> (forall|i: int|
            0 <= i < lines(out).len() && ip_addr_syntax(trim(#[trigger] lines(out)[i]))
                ==> dns_servers(out).contains(trim(lines(out)[i]))),
        !has_infix(out, "aren't any DNS Servers"@) ==> exists|idx: Seq<int>|
            #![trigger idx.len()]
            idx.len() == dns_servers(out).len() && (forall|k: int|
                0 <= k < idx.len() ==> 0 <= #[trigger] idx[k] < lines(out).len() && ip_addr_syntax(
                    trim(lines(out)[idx[k]]),
                ) && dns_servers(out)[k] == trim(lines(out)[idx[k]])) && (forall|k: int, l: int|
                0 <= k < l < idx.len() ==> idx[k] < idx[l]) && (forall|i: int|
                0 <= i < lines(out).len() && ip_addr_syntax(trim(#[trigger] lines(out)[i]))
                    ==> exists|k: int| 0 <= k < idx.len() && idx[k] == i),
{
    let c = dns_candidates(out);
    let flags = c.map_values(|t: Seq<char>| ip_addr_syntax(t));
    let r = dns_servers(out);
    if has_infix(out, "aren't any DNS Servers"@) {
        assert(c.len() == 0);
    } else {
        let ls = lines(out);
        let idx = lemma_flagged_selects(c, flags);
        assert forall|i: int|
            0 <= i < ls.len() && ip_addr_syntax(trim(#[trigger] ls[i])) implies r.contains(
            trim(ls[i]),
        ) && exists|k: int| 0 <= k < idx.len() && idx[k] == i by {
            assert(c[i] == trim(ls[i]));
            assert(flags[i]);
            let k = choose|k: int| 0 <= k < idx.len() && idx[k] == i;
            assert(r[k] == trim(ls[i]));
        }
        assert forall|k: int| 0 <= k < idx.len() implies 0 <= #[trigger] idx[k] < ls.len()
            && ip_addr_syntax(trim(ls[idx[k]])) && r[k] == trim(ls[idx[k]]) by {
            assert(c[idx[k]] == trim(ls[idx[k]]));
            assert(flags[idx[k]] == ip_addr_syntax(c[idx[k]]));
        }
    }
}

} // verus!
