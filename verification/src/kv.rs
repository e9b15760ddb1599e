//! A parser for `key > value|value` mapping tables: one entry per
//! non-blank line, keys and values trimmed, a later line winning over an
//! earlier one with the same key.

use vstd::prelude::*;

use crate::scan::{
    find_char_in, lemma_find_char_bounds, scan_find_char, scan_ws_run, str_eq, trim_range,
    trim_slice, ws_run_end,
};

verus! {

/// Pieces of `s[i..]` split at every `'|'`, each trimmed.
pub open spec fn spec_split_values(s: Seq<char>, i: int) -> Seq<Seq<char>>
    decreases s.len() - i,
    when 0 <= i <= s.len()
{
    match find_char_in(s, i, s.len() as int, '|') {
        Some(k) => {
            proof {
                lemma_find_char_bounds(s, i, s.len() as int, '|');
            }
            seq![trim_range(s, i, k)] + spec_split_values(s, k + 1)
        },
        None => seq![trim_range(s, i, s.len() as int)],
    }
}

/// One line of the table, without a trailing carriage return.
pub open spec fn spec_line_at(s: Seq<char>, pos: int, lend: int) -> Seq<char> {
    let raw = s.subrange(pos, lend);
    if raw.len() > 0 && raw.last() == '\r' {
        raw.drop_last()
    } else {
        raw
    }
}

/// The mapping a table denotes from position `pos`, counting non-blank
/// lines from `idx`.  Each non-blank line must hold a `'>'`: its trimmed
/// prefix is the key and the rest splits on `'|'` into trimmed values.  A
/// line without `'>'` fails with its index among the non-blank lines.
pub open spec fn spec_parse_map(s: Seq<char>, pos: int, idx: nat) -> Result<
    Map<Seq<char>, Seq<Seq<char>>>,
    nat,
>
    decreases s.len() - pos,
    when 0 <= pos <= s.len()
{
    if pos >= s.len() {
        Ok(Map::empty())
    } else {
        let lend = match find_char_in(s, pos, s.len() as int, '\n') {
            Some(j) => j,
            None => s.len() as int,
        };
        let next = match find_char_in(s, pos, s.len() as int, '\n') {
            Some(j) => j + 1,
            None => s.len() as int,
        };
        proof {
            lemma_find_char_bounds(s, pos, s.len() as int, '\n');
        }
        let line = spec_line_at(s, pos, lend);
        if ws_run_end(line, 0) >= line.len() {
            spec_parse_map(s, next, idx)
        } else {
            match find_char_in(line, 0, line.len() as int, '>') {
                None => Err(idx),
                Some(g) => {
                    proof {
                        lemma_find_char_bounds(line, 0, line.len() as int, '>');
                    }
                    let key = trim_range(line, 0, g);
                    let values = spec_split_values(line, g + 1);
                    match spec_parse_map(s, next, (idx + 1) as nat) {
                        Err(e) => Err(e),
                        Ok(m) => Ok(
                            if m.dom().contains(key) {
                                m
                            } else {
                                m.insert(key, values)
                            },
                        ),
                    }
                },
            }
        }
    }
}

/// The mapping a list of entries denotes, a later entry winning.
pub open spec fn kv_as_map(entries: Seq<(Seq<char>, Seq<Seq<char>>)>) -> Map<
    Seq<char>,
    Seq<Seq<char>>,
>
    decreases entries.len(),
{
    if entries.len() == 0 {
        Map::empty()
    } else {
        kv_as_map(entries.drop_last()).insert(entries.last().0, entries.last().1)
    }
}

/// No two entries share a key.
pub open spec fn kv_unique(entries: Seq<(Seq<char>, Seq<Seq<char>>)>) -> bool {
    forall|i: int, j: int| 0 <= i < j < entries.len() ==> entries[i].0 != entries[j].0
}

/// An entry list's mapping holds exactly the keys of its entries.
proof fn lemma_kv_contains(entries: Seq<(Seq<char>, Seq<Seq<char>>)>, k: Seq<char>)
    ensures
        kv_as_map(entries).dom().contains(k) <==> exists|i: int|
            0 <= i < entries.len() && entries[i].0 == k,
    decreases entries.len(),
{
    if entries.len() > 0 {
        lemma_kv_contains(entries.drop_last(), k);
        if kv_as_map(entries).dom().contains(k) {
            if entries.last().0 != k {
                let i = choose|i: int|
                    0 <= i < entries.drop_last().len() && entries.drop_last()[i].0 == k;
                assert(entries[i].0 == k);
            } else {
                assert(entries[entries.len() - 1].0 == k);
            }
        }
        if exists|i: int| 0 <= i < entries.len() && entries[i].0 == k {
            let i = choose|i: int| 0 <= i < entries.len() && entries[i].0 == k;
            if i < entries.len() - 1 {
                assert(entries.drop_last()[i].0 == k);
            }
        }
    }
}

/// Removing entry `i` removes exactly its key from the mapping.
proof fn lemma_kv_remove(entries: Seq<(Seq<char>, Seq<Seq<char>>)>, i: int)
    requires
        0 <= i < entries.len(),
        kv_unique(entries),
    ensures
        kv_unique(entries.remove(i)),
        kv_as_map(entries.remove(i)) =~= kv_as_map(entries).remove(entries[i].0),
    decreases entries.len(),
{
    lemma_kv_contains(entries.remove(i), entries[i].0);
    if i == entries.len() - 1 {
        assert(entries.remove(i) =~= entries.drop_last());
        lemma_kv_contains(entries.drop_last(), entries[i].0);
        assert(!kv_as_map(entries.drop_last()).dom().contains(entries[i].0)) by {
            if kv_as_map(entries.drop_last()).dom().contains(entries[i].0) {
                let k0 = entries[i].0;
                let j = choose|j: int|
                    0 <= j < entries.drop_last().len() && entries.drop_last()[j].0 == k0;
                assert(entries[j].0 == entries[i].0);
            }
        }
    } else {
        assert(kv_unique(entries.drop_last()));
        lemma_kv_remove(entries.drop_last(), i);
        assert(entries.remove(i).drop_last() =~= entries.drop_last().remove(i));
        assert(entries.remove(i).last() == entries.last());
        assert(entries.last().0 != entries[i].0);
    }
}

/// Collect the trimmed `'|'`-separated values of `line[from..]`.
fn split_values(line: &str, from: usize) -> (r: Vec<String>)
    requires
        from <= line@.len(),
    ensures
        r.deep_view() == spec_split_values(line@, from as int),
{
    let n = line.unicode_len();
    let mut ret: Vec<String> = Vec::new();
    let mut pos: usize = from;
    let mut fin: bool = false;
    proof {
        assert(ret.deep_view() =~= Seq::<Seq<char>>::empty());
        assert(Seq::<Seq<char>>::empty() + spec_split_values(line@, from as int)
            =~= spec_split_values(line@, from as int));
    }
    while !fin
        invariant
            from <= pos <= n,
            n == line@.len(),
            !fin ==> spec_split_values(line@, from as int) == ret.deep_view()
                + spec_split_values(line@, pos as int),
            fin ==> spec_split_values(line@, from as int) == ret.deep_view(),
        decreases n - pos + (if fin {
            0int
        } else {
            1int
        }),
    {
        let ghost old_dv = ret.deep_view();
        match scan_find_char(line, pos, n, '|') {
            Some(k) => {
                let piece = trim_slice(line, pos, k).to_owned();
                let ghost pv = piece@;
                ret.push(piece);
                proof {
                    assert(ret.deep_view() =~= old_dv.push(pv));
                    assert(old_dv + (seq![pv] + spec_split_values(line@, k + 1)) =~= ret.deep_view()
                        + spec_split_values(line@, k + 1));
                }
                pos = k + 1;
            },
            None => {
                let piece = trim_slice(line, pos, n).to_owned();
                let ghost pv = piece@;
                ret.push(piece);
                proof {
                    assert(ret.deep_view() =~= old_dv.push(pv));
                    assert(old_dv + seq![pv] =~= ret.deep_view());
                }
                fin = true;
            },
        }
    }
    ret
}

/// Insert an entry, overwriting any existing entry with the same key.
fn kv_upsert(acc: &mut Vec<(String, Vec<String>)>, key: String, values: Vec<String>)
    requires
        kv_unique(old(acc).deep_view()),
    ensures
        kv_unique(final(acc).deep_view()),
        kv_as_map(final(acc).deep_view()) == kv_as_map(old(acc).deep_view()).insert(
            key@,
            values.deep_view(),
        ),
{
    let ghost kv = key@;
    let ghost vv = values.deep_view();
    let ghost old_dv = acc.deep_view();
    let ghost old_map = kv_as_map(old_dv);
    proof {
        assert(forall|j: int| 0 <= j < acc@.len() ==> #[trigger] old_dv[j].0 == acc@[j].0@);
    }

    let mut found: bool = false;
    let mut at: usize = 0;
    let len = acc.len();
    let mut i: usize = 0;
    while i < len
        invariant
            0 <= i <= len,
            len == acc@.len(),
            kv == key@,
            !found ==> forall|j: int| 0 <= j < i ==> acc@[j].0@ != kv,
            found ==> at < len && acc@[at as int].0@ == kv,
        decreases len - i + (if found {
            0int
        } else {
            1int
        }),
    {
        if !found {
            if str_eq(acc[i].0.as_str(), key.as_str()) {
                found = true;
                at = i;
            }
        }
        i += 1;
    }
    proof {
        lemma_kv_contains(old_dv, kv);
        if !found {
            assert(!old_map.dom().contains(kv)) by {
                if exists|j: int| 0 <= j < old_dv.len() && old_dv[j].0 == kv {
                    let j = choose|j: int| 0 <= j < old_dv.len() && old_dv[j].0 == kv;
                    assert(acc@[j].0@ != kv);
                }
            }
        }
    }
    if found {
        let _ = acc.remove(at);
        proof {
            assert(acc.deep_view() =~= old_dv.remove(at as int));
            lemma_kv_remove(old_dv, at as int);
        }
    }
    let ghost mid_dv = acc.deep_view();
    proof {
        assert(!kv_as_map(mid_dv).dom().contains(kv)) by {
            if found {
                assert(kv_as_map(mid_dv) =~= old_map.remove(kv));
            }
        }
        assert(forall|j: int| 0 <= j < mid_dv.len() ==> mid_dv[j].0 != kv) by {
            lemma_kv_contains(mid_dv, kv);
            if exists|j: int| 0 <= j < mid_dv.len() && mid_dv[j].0 == kv {
                assert(kv_as_map(mid_dv).dom().contains(kv));
            }
        }
    }
    acc.push((key, values));
    proof {
        assert(acc.deep_view() =~= mid_dv.push((kv, vv)));
        assert(kv_unique(acc.deep_view()));
        assert(acc.deep_view().drop_last() =~= mid_dv);
        assert(acc.deep_view().last() == (kv, vv));
        assert(kv_as_map(acc.deep_view()) == kv_as_map(mid_dv).insert(kv, vv));
        if found {
            assert(kv_as_map(mid_dv).insert(kv, vv) =~= old_map.insert(kv, vv));
        }
        assert(kv_as_map(acc.deep_view()) =~= old_map.insert(kv, vv));
    }
}

/// Parse a `key > value|value` mapping table.
///
/// Blank lines are skipped.  Every other line must hold a `'>'`: the
/// trimmed text before it is the key, the text after it splits on `'|'`
/// into trimmed values, and a later line overwrites an earlier one with the
/// same key.  A line without `'>'` fails with its index among the
/// non-blank lines.  The entries come back with distinct keys, denoting
/// exactly the mapping; their order is not part of the contract.
pub fn parse_map(input: &str) -> (r: Result<Vec<(String, Vec<String>)>, usize>)
    ensures
        ({
            match (r, spec_parse_map(input@, 0, 0)) {
                (Ok(v), Ok(m)) => kv_unique(v.deep_view()) && kv_as_map(v.deep_view()) == m,
                (Err(i), Err(iv)) => i as nat == iv,
                _ => false,
            }
        }),
{
    let n = input.unicode_len();
    let mut pos: usize = 0;
    let mut idx: usize = 0;
    let mut acc: Vec<(String, Vec<String>)> = Vec::new();
    proof {
        assert(acc.deep_view() =~= Seq::<(Seq<char>, Seq<Seq<char>>)>::empty());
        match spec_parse_map(input@, 0, 0) {
            Ok(m) => {
                assert(kv_as_map(acc.deep_view()).union_prefer_right(m) =~= m);
            },
            Err(_) => {},
        }
    }
    while pos < n
        invariant
            0 <= pos <= n,
            idx <= pos,
            n == input@.len(),
            kv_unique(acc.deep_view()),
            ({
                match spec_parse_map(input@, pos as int, idx as nat) {
                    Ok(m) => spec_parse_map(input@, 0, 0) == Ok::<
                        Map<Seq<char>, Seq<Seq<char>>>,
                        nat,
                    >(kv_as_map(acc.deep_view()).union_prefer_right(m)),
                    Err(e) => spec_parse_map(input@, 0, 0) == Err::<
                        Map<Seq<char>, Seq<Seq<char>>>,
                        nat,
                    >(e),
                }
            }),
        decreases n - pos,
    {
        let (lend_raw, next) = match scan_find_char(input, pos, n, '\n') {
            Some(j) => (j, j + 1),
            None => (n, n),
        };
        let lend = if lend_raw > pos && input.get_char(lend_raw - 1) == '\r' {
            lend_raw - 1
        } else {
            lend_raw
        };
        let line = input.substring_char(pos, lend);
        proof {
            let raw = input@.subrange(pos as int, lend_raw as int);
            if lend < lend_raw {
                assert(raw.len() > 0 && raw.last() == '\r');
                assert(raw.drop_last() =~= input@.subrange(pos as int, lend_raw - 1));
            } else if lend_raw > pos {
                assert(raw.last() == input@[lend_raw - 1]);
            }
            assert(line@ =~= spec_line_at(input@, pos as int, lend_raw as int));
        }
        let ln = line.unicode_len();
        let a = scan_ws_run(line, 0);
        if a == ln {
            pos = next;
        } else {
            match scan_find_char(line, 0, ln, '>') {
                None => {
                    return Err(idx);
                },
                Some(g) => {
                    let key = trim_slice(line, 0, g).to_owned();
                    let values = split_values(line, g + 1);
                    let ghost kv = key@;
                    let ghost vv = values.deep_view();
                    let ghost old_map = kv_as_map(acc.deep_view());
                    kv_upsert(&mut acc, key, values);
                    proof {
                        match spec_parse_map(input@, next as int, (idx + 1) as nat) {
                            Ok(m) => {
                                assert(old_map.insert(kv, vv).union_prefer_right(m)
                                    =~= old_map.union_prefer_right(
                                    if m.dom().contains(kv) {
                                        m
                                    } else {
                                        m.insert(kv, vv)
                                    },
                                ));
                            },
                            Err(_) => {},
                        }
                    }
                    idx += 1;
                    pos = next;
                },
            }
        }
    }
    proof {
        assert(spec_parse_map(input@, pos as int, idx as nat) == Ok::<
            Map<Seq<char>, Seq<Seq<char>>>,
            nat,
        >(Map::empty()));
        assert(kv_as_map(acc.deep_view()).union_prefer_right(
            Map::<Seq<char>, Seq<Seq<char>>>::empty(),
        ) =~= kv_as_map(acc.deep_view()));
    }
    Ok(acc)
}

} // verus!
