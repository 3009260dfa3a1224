//! The roster: the players that a status report lists, read line by line with
//! a tolerant grammar.

use crate::pattern::{
    captures, compile, group_texts, is_match, pattern_compiles, pattern_found, pattern_groups,
    Pattern,
};
use crate::text::{
    decimal, decimal_string, lines, line_views, parse_i32, parse_i32_spec, split_lines,
};
use vstd::prelude::*;
use vstd::string::StringExecFns;

verus! {

/// A player line: the marker `#`, the user id, an optional slot number, the
/// quoted display name, the identity token, the duration token and the ping.
/// Groups 1 to 5 are the user id, name, identity, duration and ping.
pub const PLAYER_LINE: &'static str =
    r#"#\s+(\d+)\s+(?:\d+\s+)?"(.+?)"\s+(\S+)\s+(\S+)\s+(\d+)"#;

/// A player line that ends in a dotted IPv4 address. Groups 1 to 3 are the
/// name, the identity and the address.
pub const ADDRESS_LINE: &'static str =
    r#"#\s+\d+\s+(?:\d+\s+)?"(.+?)"\s+(\S+)\s+.*\s+(\d{1,3}\.\d{1,3}\.\d{1,3}\.\d{1,3})"#;

/// The start of a player line, up to the identity. Groups 1 and 2 are the name
/// and the identity.
pub const IDENTITY_LINE: &'static str = r#"#\s+\d+\s+(?:\d+\s+)?"(.+?)"\s+(\S+)"#;

/// The user id of a record whose id field is no 32-bit number.
pub const UNKNOWN_USERID: i32 = -1;

/// The ping of a record whose ping field is no 32-bit number.
pub const UNKNOWN_PING: i32 = 0;

/// One connected player, as the status report shows it.
#[derive(Debug, Clone, PartialEq, Eq)]
pub struct Player {
    pub userid: i32,
    pub name: String,
    pub steam_id: String,
    pub time: String,
    pub ping: i32,
}

/// The mathematical value of a [`Player`].
pub struct PlayerView {
    pub userid: i32,
    pub name: Seq<char>,
    pub steam_id: Seq<char>,
    pub time: Seq<char>,
    pub ping: i32,
}

impl View for Player {
    type V = PlayerView;

    open spec fn view(&self) -> PlayerView {
        PlayerView {
            userid: self.userid,
            name: self.name@,
            steam_id: self.steam_id@,
            time: self.time@,
            ping: self.ping,
        }
    }
}

/// The values of a list of players.
pub open spec fn player_views(players: Seq<Player>) -> Seq<PlayerView> {
    Seq::new(players.len(), |i: int| players[i]@)
}

/// The number that a field writes, or `fallback` where it writes none that
/// fits in 32 bits.
pub open spec fn number_or(field: Seq<char>, fallback: i32) -> i32 {
    match parse_i32_spec(field) {
        Some(v) => v,
        None => fallback,
    }
}

/// Whether the groups `1..=n` are all there and all took part in the match.
pub open spec fn groups_present(groups: Seq<Option<Seq<char>>>, n: int) -> bool {
    &&& groups.len() == n + 1
    &&& forall|i: int| 1 <= i <= n ==> (#[trigger] groups[i]) is Some
}

/// The record that the capture groups of a player line give. A numeric field
/// that cannot be read keeps the record and takes its sentinel.
pub open spec fn player_of_groups(groups: Seq<Option<Seq<char>>>) -> Option<PlayerView> {
    if groups_present(groups, 5) {
        Some(
            PlayerView {
                userid: number_or(groups[1]->0, UNKNOWN_USERID),
                name: groups[2]->0,
                steam_id: groups[3]->0,
                time: groups[4]->0,
                ping: number_or(groups[5]->0, UNKNOWN_PING),
            },
        )
    } else {
        None
    }
}

/// The record of one line: that of the leftmost match of [`PLAYER_LINE`] in
/// it, or none where the line holds no match.
pub open spec fn player_of_line(line: Seq<char>) -> Option<PlayerView> {
    match pattern_groups(PLAYER_LINE@, line) {
        Some(groups) => player_of_groups(groups),
        None => None,
    }
}

/// The records of the lines that give one, in the order of the lines.
pub open spec fn players_of_lines(ls: Seq<Seq<char>>) -> Seq<PlayerView>
    decreases ls.len(),
{
    if ls.len() == 0 {
        Seq::empty()
    } else {
        let front = players_of_lines(ls.drop_last());
        match player_of_line(ls.last()) {
            Some(p) => front.push(p),
            None => front,
        }
    }
}

/// The roster that a status report holds.
pub open spec fn roster(body: Seq<char>) -> Seq<PlayerView> {
    if pattern_compiles(PLAYER_LINE@) {
        players_of_lines(lines(body))
    } else {
        Seq::empty()
    }
}

fn number_field(field: &str, fallback: i32) -> (n: i32)
    ensures
        n == number_or(field@, fallback),
{
    match parse_i32(field) {
        Some(v) => v,
        None => fallback,
    }
}

/// Builds the record from the capture groups of a player line. Gives `None`
/// unless there are exactly the five groups of the grammar behind the whole
/// match and each of them matched.
pub fn player_from_groups(groups: &Vec<Option<String>>) -> (r: Option<Player>)
    ensures
        match r {
            Some(p) => player_of_groups(group_texts(groups@)) == Some(p@),
            None => player_of_groups(group_texts(groups@)) is None,
        },
{
    if groups.len() != 6 {
        return None;
    }
    match (&groups[1], &groups[2], &groups[3], &groups[4], &groups[5]) {
        (Some(userid), Some(name), Some(steam_id), Some(time), Some(ping)) => Some(
            Player {
                userid: number_field(userid.as_str(), UNKNOWN_USERID),
                name: name.clone(),
                steam_id: steam_id.clone(),
                time: time.clone(),
                ping: number_field(ping.as_str(), UNKNOWN_PING),
            },
        ),
        _ => None,
    }
}

fn parse_player_line(grammar: &Pattern, line: &str) -> (r: Option<Player>)
    requires
        grammar@ == PLAYER_LINE@,
    ensures
        match r {
            Some(p) => player_of_line(line@) == Some(p@),
            None => player_of_line(line@) is None,
        },
{
    match captures(grammar, line) {
        Some(groups) => player_from_groups(&groups),
        None => None,
    }
}

/// Reads the roster out of a status report. Every line is tried against the
/// grammar of a player line; a line that does not match is passed over, and a
/// line that matches gives one record.
pub fn parse_roster(body: &str) -> (players: Vec<Player>)
    ensures
        player_views(players@) == roster(body@),
{
    let mut players: Vec<Player> = Vec::new();
    if let Ok(grammar) = compile(PLAYER_LINE) {
        let ls = split_lines(body);
        let ghost texts = lines(body@);
        for i in 0..ls.len()
            invariant
                grammar@ == PLAYER_LINE@,
                line_views(ls@) == texts,
                player_views(players@) == players_of_lines(texts.take(i as int)),
        {
            assert(texts.take(i + 1).drop_last() =~= texts.take(i as int));
            if let Some(player) = parse_player_line(&grammar, ls[i]) {
                players.push(player);
            }
        }
        assert(texts.take(ls.len() as int) =~= texts);
    }
    players
}

/// What stands before the user id in the pattern that finds a player's line.
pub const TARGET_HEAD: &'static str = r"#\s+";

/// What stands behind the user id in the pattern that finds a player's line.
pub const TARGET_TAIL: &'static str = r"\s+";

/// The name and the identity of a player whose line could not be read.
pub const UNKNOWN: &'static str = "Unknown";

/// The address of a player whose line shows none.
pub const NO_ADDRESS: &'static str = "0.0.0.0";

/// What is known of the player that an action is aimed at.
#[derive(Debug, Clone, PartialEq, Eq)]
pub struct PlayerInfo {
    pub name: String,
    pub steam_id: String,
    pub ip: String,
}

/// The mathematical value of a [`PlayerInfo`].
pub struct PlayerInfoView {
    pub name: Seq<char>,
    pub steam_id: Seq<char>,
    pub ip: Seq<char>,
}

impl View for PlayerInfo {
    type V = PlayerInfoView;

    open spec fn view(&self) -> PlayerInfoView {
        PlayerInfoView { name: self.name@, steam_id: self.steam_id@, ip: self.ip@ }
    }
}

/// What is recorded of a player of whom nothing could be read.
pub open spec fn unknown_info() -> PlayerInfoView {
    PlayerInfoView { name: UNKNOWN@, steam_id: UNKNOWN@, ip: NO_ADDRESS@ }
}

/// The pattern that finds the line of the player with this user id: the marker,
/// white space, the id in decimal, white space.
pub open spec fn target_pattern(userid: i32) -> Seq<char> {
    TARGET_HEAD@ + decimal(userid as int) + TARGET_TAIL@
}

/// First strategy: name, identity and address from the groups of
/// [`ADDRESS_LINE`].
pub open spec fn info_with_address(groups: Seq<Option<Seq<char>>>) -> Option<PlayerInfoView> {
    if groups_present(groups, 3) {
        Some(PlayerInfoView { name: groups[1]->0, steam_id: groups[2]->0, ip: groups[3]->0 })
    } else {
        None
    }
}

/// Second strategy: name and identity from the groups of [`IDENTITY_LINE`],
/// with [`NO_ADDRESS`] for the address.
pub open spec fn info_without_address(groups: Seq<Option<Seq<char>>>) -> Option<
    PlayerInfoView,
> {
    if groups_present(groups, 2) {
        Some(PlayerInfoView { name: groups[1]->0, steam_id: groups[2]->0, ip: NO_ADDRESS@ })
    } else {
        None
    }
}

/// What a strategy gives on a line: what it reads out of the groups of its
/// pattern's leftmost match there.
pub open spec fn strategy_on_line(pattern: Seq<char>, with_address: bool, line: Seq<char>) -> Option<
    PlayerInfoView,
> {
    match pattern_groups(pattern, line) {
        Some(groups) => if with_address {
            info_with_address(groups)
        } else {
            info_without_address(groups)
        },
        None => None,
    }
}

/// What the strategies recover from one line: the result of the first one
/// that succeeds, in the order address, then identity alone.
pub open spec fn info_of_line(line: Seq<char>) -> Option<PlayerInfoView> {
    match strategy_on_line(ADDRESS_LINE@, true, line) {
        Some(info) => Some(info),
        None => strategy_on_line(IDENTITY_LINE@, false, line),
    }
}

/// The first of the lines in which `pattern` is found.
pub open spec fn first_match(ls: Seq<Seq<char>>, pattern: Seq<char>) -> Option<Seq<char>>
    decreases ls.len(),
{
    if ls.len() == 0 {
        None
    } else if pattern_found(pattern, ls[0]) {
        Some(ls[0])
    } else {
        first_match(ls.skip(1), pattern)
    }
}

/// What a status report tells of the player with this user id. The first line
/// that shows the id decides: what the strategies recover from it is the
/// answer, and where they recover nothing, or no line shows the id, the answer
/// is [`unknown_info`].
pub open spec fn located(body: Seq<char>, userid: i32) -> PlayerInfoView {
    let target = target_pattern(userid);
    if pattern_compiles(target) && pattern_compiles(ADDRESS_LINE@) && pattern_compiles(
        IDENTITY_LINE@,
    ) {
        match first_match(lines(body), target) {
            Some(line) => match info_of_line(line) {
                Some(info) => info,
                None => unknown_info(),
            },
            None => unknown_info(),
        }
    } else {
        unknown_info()
    }
}

impl PlayerInfo {
    /// The record of a player of whom nothing could be read.
    pub fn unknown() -> (info: PlayerInfo)
        ensures
            info@ == unknown_info(),
    {
        PlayerInfo {
            name: String::from_str(UNKNOWN),
            steam_id: String::from_str(UNKNOWN),
            ip: String::from_str(NO_ADDRESS),
        }
    }
}

/// First strategy, on the capture groups of [`ADDRESS_LINE`].
pub fn info_from_address_groups(groups: &Vec<Option<String>>) -> (r: Option<PlayerInfo>)
    ensures
        match r {
            Some(info) => info_with_address(group_texts(groups@)) == Some(info@),
            None => info_with_address(group_texts(groups@)) is None,
        },
{
    if groups.len() != 4 {
        return None;
    }
    match (&groups[1], &groups[2], &groups[3]) {
        (Some(name), Some(steam_id), Some(ip)) => Some(
            PlayerInfo { name: name.clone(), steam_id: steam_id.clone(), ip: ip.clone() },
        ),
        _ => None,
    }
}

/// Second strategy, on the capture groups of [`IDENTITY_LINE`].
pub fn info_from_identity_groups(groups: &Vec<Option<String>>) -> (r: Option<PlayerInfo>)
    ensures
        match r {
            Some(info) => info_without_address(group_texts(groups@)) == Some(info@),
            None => info_without_address(group_texts(groups@)) is None,
        },
{
    if groups.len() != 3 {
        return None;
    }
    match (&groups[1], &groups[2]) {
        (Some(name), Some(steam_id)) => Some(
            PlayerInfo {
                name: name.clone(),
                steam_id: steam_id.clone(),
                ip: String::from_str(NO_ADDRESS),
            },
        ),
        _ => None,
    }
}

fn recover_from_line(address: &Pattern, identity: &Pattern, line: &str) -> (r: Option<PlayerInfo>)
    requires
        address@ == ADDRESS_LINE@,
        identity@ == IDENTITY_LINE@,
    ensures
        match r {
            Some(info) => info_of_line(line@) == Some(info@),
            None => info_of_line(line@) is None,
        },
{
    let first = match captures(address, line) {
        Some(groups) => info_from_address_groups(&groups),
        None => None,
    };
    match first {
        Some(info) => Some(info),
        None => match captures(identity, line) {
            Some(groups) => info_from_identity_groups(&groups),
            None => None,
        },
    }
}

fn compile_target(userid: i32) -> (r: Result<Pattern, regex::Error>)
    ensures
        r is Ok <==> pattern_compiles(target_pattern(userid)),
        r matches Ok(pattern) ==> pattern@ == target_pattern(userid),
{
    let mut pattern = String::from_str(TARGET_HEAD);
    let id = decimal_string(userid as i64);
    pattern.append(id.as_str());
    pattern.append(TARGET_TAIL);
    compile(pattern.as_str())
}

/// Looks up the player with this user id in a status report and recovers the
/// name, the identity and the address as far as the line shows them. Always
/// gives a record: one of unknowns where nothing better can be had.
pub fn locate_player(body: &str, userid: i32) -> (info: PlayerInfo)
    ensures
        info@ == located(body@, userid),
{
    let (target, address, identity) = match (
        compile_target(userid),
        compile(ADDRESS_LINE),
        compile(IDENTITY_LINE),
    ) {
        (Ok(target), Ok(address), Ok(identity)) => (target, address, identity),
        _ => {
            return PlayerInfo::unknown();
        },
    };
    let ls = split_lines(body);
    let ghost texts = lines(body@);
    let mut i: usize = 0;
    assert(texts.skip(0) =~= texts);
    while i < ls.len()
        invariant
            i <= ls.len(),
            line_views(ls@) == texts,
            texts == lines(body@),
            pattern_compiles(target_pattern(userid)),
            pattern_compiles(ADDRESS_LINE@),
            pattern_compiles(IDENTITY_LINE@),
            target@ == target_pattern(userid),
            address@ == ADDRESS_LINE@,
            identity@ == IDENTITY_LINE@,
            first_match(texts, target_pattern(userid)) == first_match(
                texts.skip(i as int),
                target_pattern(userid),
            ),
        decreases ls.len() - i,
    {
        let line = ls[i];
        if is_match(&target, line) {
            return match recover_from_line(&address, &identity, line) {
                Some(info) => info,
                None => PlayerInfo::unknown(),
            };
        }
        assert(texts.skip(i as int).skip(1) =~= texts.skip(i + 1));
        i = i + 1;
    }
    PlayerInfo::unknown()
}

/// Reading a status report twice gives the same roster: the records depend on
/// the text alone.
pub proof fn lemma_roster_repeatable(body: Seq<char>, first: Seq<PlayerView>, second: Seq<PlayerView>)
    requires
        first == roster(body),
        second == roster(body),
    ensures
        first == second,
{
}

/// Every record comes from a line: the roster holds no more records than
/// there are lines, and each record is what its line gives.
pub proof fn lemma_each_record_has_its_line(ls: Seq<Seq<char>>)
    ensures
        players_of_lines(ls).len() <= ls.len(),
        forall|i: int|
            0 <= i < players_of_lines(ls).len() ==> exists|j: int|
                0 <= j < ls.len() && player_of_line(ls[j]) == Some(
                    #[trigger] players_of_lines(ls)[i],
                ),
    decreases ls.len(),
{
    if ls.len() > 0 {
        let front = ls.drop_last();
        let last = ls.len() - 1;
        lemma_each_record_has_its_line(front);
        let all = players_of_lines(ls);
        assert forall|i: int| 0 <= i < all.len() implies exists|j: int|
            0 <= j < ls.len() && player_of_line(ls[j]) == Some(#[trigger] all[i]) by {
            if i < players_of_lines(front).len() {
                let j = choose|j: int|
                    0 <= j < front.len() && player_of_line(front[j]) == Some(
                        players_of_lines(front)[i],
                    );
            }
        }
    }
}

/// A line never fails: it gives no record, or one whose user id is the number
/// that the line writes there, else the sentinel, and whose ping is the number
/// that the line writes there, else the sentinel.
pub proof fn lemma_line_degrades(line: Seq<char>)
    ensures
        match player_of_line(line) {
            None => true,
            Some(p) => {
                let groups = pattern_groups(PLAYER_LINE@, line)->0;
                &&& groups_present(groups, 5)
                &&& (parse_i32_spec(groups[1]->0) == Some(p.userid) || (parse_i32_spec(
                    groups[1]->0,
                ) is None && p.userid == UNKNOWN_USERID))
                &&& (parse_i32_spec(groups[5]->0) == Some(p.ping) || (parse_i32_spec(
                    groups[5]->0,
                ) is None && p.ping == UNKNOWN_PING))
                &&& p.name == groups[2]->0
                &&& p.steam_id == groups[3]->0
                &&& p.time == groups[4]->0
            },
        },
{
}

} // verus!
