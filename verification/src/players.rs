//! Parsing of the server's player-list reply.
//!
//! A reply line has the form `There are N of a max M players online:`
//! followed either by nothing (no one is online) or by a space and a
//! comma-separated list of `name (uuid)` entries.

use vstd::prelude::*;

verus! {

use vstd::string::StrSliceExecFns;

/// One online player: a name and the id the server reports for it.
pub struct Player {
    pub name: String,
    pub uuid: String,
}

/// The spec-level image of a player.
pub struct PlayerV {
    pub name: Seq<char>,
    pub uuid: Seq<char>,
}

impl View for Player {
    type V = PlayerV;

    open spec fn view(&self) -> PlayerV {
        PlayerV { name: self.name@, uuid: self.uuid@ }
    }
}

/// A parsed player-list reply: the player count, the configured maximum,
/// and the players by name and id.
pub struct PlayerList {
    pub online: u32,
    pub max: u32,
    pub players: Vec<Player>,
}

/// The spec-level image of a parsed player-list reply.
pub struct PlayerListV {
    pub online: u32,
    pub max: u32,
    pub players: Seq<PlayerV>,
}

impl View for PlayerList {
    type V = PlayerListV;

    open spec fn view(&self) -> PlayerListV {
        PlayerListV { online: self.online, max: self.max, players: players_view(self.players@) }
    }
}

/// The spec-level images of a sequence of players.
pub open spec fn players_view(players: Seq<Player>) -> Seq<PlayerV> {
    Seq::new(players.len(), |i: int| players[i]@)
}

/// A decimal digit.
pub open spec fn is_digit(c: char) -> bool {
    '0' <= c <= '9'
}

/// A character that may appear in a player name.
pub open spec fn is_name_char(c: char) -> bool {
    ('a' <= c <= 'z') || ('A' <= c <= 'Z') || is_digit(c) || c == '_'
}

/// A character that may appear in a player id.
pub open spec fn is_uuid_char(c: char) -> bool {
    ('a' <= c <= 'z') || ('A' <= c <= 'Z') || is_digit(c) || c == '-'
}

/// The digit predicate as a value, so that scans can be stated over it.
pub open spec fn digit_pred() -> spec_fn(char) -> bool {
    |c: char| is_digit(c)
}

/// The name-character predicate as a value.
pub open spec fn name_pred() -> spec_fn(char) -> bool {
    |c: char| is_name_char(c)
}

/// The id-character predicate as a value.
pub open spec fn uuid_pred() -> spec_fn(char) -> bool {
    |c: char| is_uuid_char(c)
}

/// The value of a decimal digit.
pub open spec fn digit_val(c: char) -> nat
    recommends
        is_digit(c),
{
    ((c as u32) - 48) as nat
}

/// The value of a string of decimal digits, most significant first.
pub open spec fn digits_val(s: Seq<char>) -> nat
    decreases s.len(),
{
    if s.len() == 0 {
        0
    } else {
        digits_val(s.drop_last()) * 10 + digit_val(s.last())
    }
}

/// Where a run of characters satisfying `pred` that starts at `i` ends.
pub open spec fn scan_end(s: Seq<char>, i: int, pred: spec_fn(char) -> bool) -> int
    recommends
        0 <= i <= s.len(),
    decreases s.len() - i,
{
    if i < s.len() && pred(s[i]) {
        scan_end(s, i + 1, pred)
    } else {
        i
    }
}

/// A scan ends within the string, every character it covers satisfies the
/// predicate, and the character it stops at (if any) does not.
pub proof fn lemma_scan_end(s: Seq<char>, i: int, pred: spec_fn(char) -> bool)
    requires
        0 <= i <= s.len(),
    ensures
        i <= scan_end(s, i, pred) <= s.len(),
        forall|j: int| i <= j < scan_end(s, i, pred) ==> pred(s[j]),
        scan_end(s, i, pred) < s.len() ==> !pred(s[scan_end(s, i, pred)]),
    decreases s.len() - i,
{
    if i < s.len() && pred(s[i]) {
        lemma_scan_end(s, i + 1, pred);
    }
}

/// Whether `lit` occurs in `s` starting at position `i`.
pub open spec fn has_lit_at(s: Seq<char>, i: int, lit: Seq<char>) -> bool {
    &&& 0 <= i
    &&& i + lit.len() <= s.len()
    &&& s.subrange(i, i + lit.len()) == lit
}

/// One `name (uuid)` entry starting at `i`: the player and the position
/// just past its closing parenthesis.
pub open spec fn parse_player(s: Seq<char>, i: int) -> Option<(PlayerV, int)>
    recommends
        0 <= i <= s.len(),
{
    let ne = scan_end(s, i, name_pred());
    if ne == i {
        None
    } else if !(ne + 2 <= s.len() && s[ne] == ' ' && s[ne + 1] == '(') {
        None
    } else {
        let us = ne + 2;
        let ue = scan_end(s, us, uuid_pred());
        if ue == us {
            None
        } else if !(ue < s.len() && s[ue] == ')') {
            None
        } else {
            Some((PlayerV { name: s.subrange(i, ne), uuid: s.subrange(us, ue) }, ue + 1))
        }
    }
}

/// The `name (uuid)` entries from `i` to the end of the string, separated
/// by a comma and a space, appended to `acc`; `None` when the rest of the
/// string is not exactly such a list.
pub open spec fn parse_players(s: Seq<char>, i: int, acc: Seq<PlayerV>) -> Option<Seq<PlayerV>>
    recommends
        0 <= i <= s.len(),
    decreases s.len() - i,
{
    match parse_player(s, i) {
        None => None,
        Some((p, j)) => {
            if j == s.len() {
                Some(acc.push(p))
            } else if i < j && j + 2 <= s.len() && s[j] == ',' && s[j + 1] == ' ' {
                parse_players(s, j + 2, acc.push(p))
            } else {
                None
            }
        },
    }
}

/// What a player-list reply line parses to, or `None` when the line is not
/// such a reply.
pub open spec fn spec_parse_player_list(s: Seq<char>) -> Option<PlayerListV> {
    let intro = "There are "@;
    if !has_lit_at(s, 0, intro) {
        None
    } else {
        match parse_count(s, intro.len() as int) {
            None => None,
            Some((online, e1)) => {
                let middle = " of a max "@;
                if !has_lit_at(s, e1, middle) {
                    None
                } else {
                    match parse_count(s, e1 + middle.len()) {
                        None => None,
                        Some((max, e2)) => {
                            let tail = " players online:"@;
                            if !has_lit_at(s, e2, tail) {
                                None
                            } else {
                                let rest = e2 + tail.len();
                                if rest == s.len() {
                                    Some(PlayerListV { online, max, players: Seq::empty() })
                                } else if s[rest] == ' ' {
                                    match parse_players(s, rest + 1, Seq::empty()) {
                                        None => None,
                                        Some(ps) => Some(PlayerListV { online, max, players: ps }),
                                    }
                                } else {
                                    None
                                }
                            }
                        },
                    }
                }
            },
        }
    }
}

/// A run of digits starting at `i` read as a number: the value and the
/// position just past the run; `None` when there is no digit at `i` or the
/// value does not fit in 32 bits.
pub open spec fn parse_count(s: Seq<char>, i: int) -> Option<(u32, int)>
    recommends
        0 <= i <= s.len(),
{
    let e = scan_end(s, i, digit_pred());
    if e == i {
        None
    } else if digits_val(s.subrange(i, e)) > u32::MAX {
        None
    } else {
        Some((digits_val(s.subrange(i, e)) as u32, e))
    }
}

/// Whether a character is a decimal digit.
fn is_digit_exec(c: char) -> (r: bool)
    ensures
        r == is_digit(c),
{
    let v = c as u32;
    48 <= v && v <= 57
}

/// Whether a character may appear in a player name.
fn is_name_char_exec(c: char) -> (r: bool)
    ensures
        r == is_name_char(c),
{
    let v = c as u32;
    (97 <= v && v <= 122) || (65 <= v && v <= 90) || (48 <= v && v <= 57) || v == 95
}

/// Whether a character may appear in a player id.
fn is_uuid_char_exec(c: char) -> (r: bool)
    ensures
        r == is_uuid_char(c),
{
    let v = c as u32;
    (97 <= v && v <= 122) || (65 <= v && v <= 90) || (48 <= v && v <= 57) || v == 45
}

/// Finds the end of the digit run starting at `from`.
fn scan_digits(s: &str, from: usize, n: usize) -> (e: usize)
    requires
        n == s@.len(),
        from <= n,
    ensures
        e == scan_end(s@, from as int, digit_pred()),
        from <= e <= n,
    decreases n - from,
{
    if from < n && is_digit_exec(s.get_char(from)) {
        scan_digits(s, from + 1, n)
    } else {
        from
    }
}

/// Finds the end of the name-character run starting at `from`.
fn scan_name(s: &str, from: usize, n: usize) -> (e: usize)
    requires
        n == s@.len(),
        from <= n,
    ensures
        e == scan_end(s@, from as int, name_pred()),
        from <= e <= n,
    decreases n - from,
{
    if from < n && is_name_char_exec(s.get_char(from)) {
        scan_name(s, from + 1, n)
    } else {
        from
    }
}

/// Finds the end of the id-character run starting at `from`.
fn scan_uuid(s: &str, from: usize, n: usize) -> (e: usize)
    requires
        n == s@.len(),
        from <= n,
    ensures
        e == scan_end(s@, from as int, uuid_pred()),
        from <= e <= n,
    decreases n - from,
{
    if from < n && is_uuid_char_exec(s.get_char(from)) {
        scan_uuid(s, from + 1, n)
    } else {
        from
    }
}

/// Whether `lit` occurs in `s` starting at position `i`.
fn match_literal_at(s: &str, i: usize, n: usize, lit: &str) -> (r: bool)
    requires
        n == s@.len(),
        i <= n,
    ensures
        r == has_lit_at(s@, i as int, lit@),
{
    let lit_len = lit.unicode_len();
    if lit_len > n - i {
        return false;
    }
    let mut j: usize = 0;
    while j < lit_len
        invariant
            n == s@.len(),
            lit_len == lit@.len(),
            i + lit_len <= n,
            j <= lit_len,
            forall|k: int| 0 <= k < j ==> s@[i + k] == lit@[k],
        decreases lit_len - j,
    {
        if s.get_char(i + j) != lit.get_char(j) {
            return false;
        }
        j = j + 1;
    }
    proof {
        assert(s@.subrange(i as int, i + lit@.len()) =~= lit@);
    }
    true
}

/// Reads the digit run starting at `from` as a 32-bit number.
fn parse_count_exec(s: &str, from: usize, n: usize) -> (r: Option<(u32, usize)>)
    requires
        n == s@.len(),
        from <= n,
    ensures
        match r {
            Some((v, e)) => {
                &&& parse_count(s@, from as int) == Some((v, e as int))
                &&& from < e <= n
            },
            None => parse_count(s@, from as int) is None,
        },
{
    let e = scan_digits(s, from, n);
    if e == from {
        return None;
    }
    proof {
        lemma_scan_end(s@, from as int, digit_pred());
    }
    let mut val: u64 = 0;
    let mut k: usize = from;
    while k < e
        invariant
            n == s@.len(),
            from <= k <= e <= n,
            from < e,
            e == scan_end(s@, from as int, digit_pred()),
            forall|j: int| from <= j < e ==> is_digit(s@[j]),
            val == digits_val(s@.subrange(from as int, k as int)),
            val <= u32::MAX,
        decreases e - k,
    {
        let c = s.get_char(k);
        let d: u64 = (c as u32 - 48) as u64;
        let next: u64 = val * 10 + d;
        proof {
            let pre = s@.subrange(from as int, k as int);
            let cur = s@.subrange(from as int, k + 1);
            assert(cur.drop_last() =~= pre);
            assert(digits_val(cur) == digits_val(pre) * 10 + digit_val(cur.last()));
        }
        if next > 0xffff_ffff {
            proof {
                lemma_digits_prefix_le(s@, from as int, k + 1, e as int);
            }
            return None;
        }
        val = next;
        k = k + 1;
    }
    Some((val as u32, e))
}

/// A digit-run prefix never exceeds the whole run in value.
proof fn lemma_digits_prefix_le(s: Seq<char>, from: int, k: int, e: int)
    requires
        0 <= from <= k <= e <= s.len(),
    ensures
        digits_val(s.subrange(from, k)) <= digits_val(s.subrange(from, e)),
    decreases e - k,
{
    if k < e {
        lemma_digits_prefix_le(s, from, k + 1, e);
        let shorter = s.subrange(from, k);
        let longer = s.subrange(from, k + 1);
        assert(longer.drop_last() =~= shorter);
        assert(digits_val(longer) == digits_val(shorter) * 10 + digit_val(longer.last()));
    }
}

/// Reads one `name (uuid)` entry starting at `from`.
fn parse_player_exec(s: &str, from: usize, n: usize) -> (r: Option<(Player, usize)>)
    requires
        n == s@.len(),
        from <= n,
    ensures
        match r {
            Some((p, e)) => {
                &&& parse_player(s@, from as int) == Some((p@, e as int))
                &&& from < e <= n
            },
            None => parse_player(s@, from as int) is None,
        },
{
    let ne = scan_name(s, from, n);
    if ne == from {
        return None;
    }
    if !(n - ne >= 2 && s.get_char(ne) == ' ' && s.get_char(ne + 1) == '(') {
        return None;
    }
    let us = ne + 2;
    let ue = scan_uuid(s, us, n);
    if ue == us {
        return None;
    }
    if !(ue < n && s.get_char(ue) == ')') {
        return None;
    }
    let name = s.substring_char(from, ne).to_owned();
    let uuid = s.substring_char(us, ue).to_owned();
    Some((Player { name, uuid }, ue + 1))
}

/// Reads the comma-separated `name (uuid)` entries from `from` to the end
/// of the string, pushing them onto `acc`.
fn parse_players_exec(s: &str, from: usize, n: usize, acc: &mut Vec<Player>) -> (ok: bool)
    requires
        n == s@.len(),
        from <= n,
    ensures
        match parse_players(s@, from as int, players_view(old(acc)@)) {
            Some(ps) => ok && players_view(final(acc)@) == ps,
            None => !ok,
        },
    decreases n - from,
{
    match parse_player_exec(s, from, n) {
        None => false,
        Some((p, e)) => {
            let ghost pre = players_view(acc@);
            acc.push(p);
            proof {
                assert(players_view(acc@) =~= pre.push(p@));
            }
            if e == n {
                true
            } else if n - e >= 2 && s.get_char(e) == ',' && s.get_char(e + 1) == ' ' {
                parse_players_exec(s, e + 2, n, acc)
            } else {
                false
            }
        },
    }
}

/// Whether a line starts with the server's log stamp
/// `[HH:MM:SS] [Server thread/INFO]: `.
pub open spec fn spec_has_info_stamp(s: Seq<char>) -> bool {
    &&& s.len() >= 33
    &&& s[0] == '['
    &&& is_digit(s[1])
    &&& is_digit(s[2])
    &&& s[3] == ':'
    &&& is_digit(s[4])
    &&& is_digit(s[5])
    &&& s[6] == ':'
    &&& is_digit(s[7])
    &&& is_digit(s[8])
    &&& s[9] == ']'
    &&& has_lit_at(s, 10, " [Server thread/INFO]: "@)
}

/// Removes the log stamp `[HH:MM:SS] [Server thread/INFO]: ` from the front
/// of a line, or returns `None` when the line does not carry one.
pub fn strip_info_prefix(line: &str) -> (r: Option<&str>)
    ensures
        match r {
            Some(rest) => spec_has_info_stamp(line@) && rest@ == line@.skip(33),
            None => !spec_has_info_stamp(line@),
        },
{
    let n = line.unicode_len();
    if n < 33 {
        return None;
    }
    if !(line.get_char(0) == '[' && is_digit_exec(line.get_char(1)) && is_digit_exec(
        line.get_char(2),
    ) && line.get_char(3) == ':' && is_digit_exec(line.get_char(4)) && is_digit_exec(
        line.get_char(5),
    ) && line.get_char(6) == ':' && is_digit_exec(line.get_char(7)) && is_digit_exec(
        line.get_char(8),
    ) && line.get_char(9) == ']') {
        return None;
    }
    if !match_literal_at(line, 10, n, " [Server thread/INFO]: ") {
        return None;
    }
    proof {
        reveal_strlit(" [Server thread/INFO]: ");
        assert(line@.skip(33) =~= line@.subrange(33, n as int));
    }
    Some(line.substring_char(33, n))
}

/// Parses a player-list reply line, such as
/// `There are 2 of a max 20 players online: Alice (uuid-1), Bob (uuid-2)`,
/// into the counts and the named players; a reply with no one online parses
/// to an empty player list. Returns `None` for any other line.
pub fn parse_player_list(line: &str) -> (r: Option<PlayerList>)
    ensures
        match r {
            Some(pl) => spec_parse_player_list(line@) == Some(pl@),
            None => spec_parse_player_list(line@) is None,
        },
{
    let n = line.unicode_len();
    let intro = "There are ";
    let intro_len = intro.unicode_len();
    if !match_literal_at(line, 0, n, intro) {
        return None;
    }
    let (online, e1) = match parse_count_exec(line, intro_len, n) {
        Some(v) => v,
        None => {
            return None;
        },
    };
    let middle = " of a max ";
    let middle_len = middle.unicode_len();
    if !match_literal_at(line, e1, n, middle) {
        return None;
    }
    let (max, e2) = match parse_count_exec(line, e1 + middle_len, n) {
        Some(v) => v,
        None => {
            return None;
        },
    };
    let tail = " players online:";
    let tail_len = tail.unicode_len();
    if !match_literal_at(line, e2, n, tail) {
        return None;
    }
    let rest = e2 + tail_len;
    if rest == n {
        let pl = PlayerList { online, max, players: Vec::new() };
        proof {
            assert(players_view(pl.players@) =~= Seq::<PlayerV>::empty());
        }
        return Some(pl);
    }
    if line.get_char(rest) != ' ' {
        return None;
    }
    let mut players: Vec<Player> = Vec::new();
    proof {
        assert(players_view(players@) =~= Seq::<PlayerV>::empty());
    }
    if parse_players_exec(line, rest + 1, n, &mut players) {
        Some(PlayerList { online, max, players })
    } else {
        None
    }
}

} // verus!
