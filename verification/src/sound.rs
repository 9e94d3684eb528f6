//! Audio state as the daemon's watchers read it: the default sink's section
//! of `pactl list sinks`, the MPRIS players on the session bus, and which
//! playback changes are worth announcing.
use vstd::prelude::*;
use vstd::string::*;

use crate::lines::{lines_of, strip_suffix_text, text_lines, texts, without_suffix};
use crate::text::{
    contains_exec, contains_text, split_parts, split_text, starts_with_exec, starts_with_text, text_eq,
    trim_text, trimmed,
};

verus! {

/// The percentage a `Volume:` line shows after its first '/', without the
/// '%' sign and surrounding blanks ("front-left: 65536 / 100% / ..." gives "100").
pub open spec fn volume_text(line: Seq<char>) -> Option<Seq<char>> {
    let parts = split_parts(line, "/"@);
    if parts.len() > 1 {
        match without_suffix(trimmed(parts[1]), "%"@) {
            Some(num) => Some(trimmed(num)),
            None => None,
        }
    } else {
        None
    }
}

/// Where a scan of `pactl list sinks` stands after some lines: inside the
/// wanted sink's section, past its end, the volume percentages seen there
/// (in order), and its mute state.
pub struct ScanState {
    pub in_sink: bool,
    pub stopped: bool,
    pub volumes: Seq<Seq<char>>,
    pub muted: bool,
}

/// One line of the scan. A line naming the sink opens its section; inside
/// it, `\tVolume:` lines give percentages, `Mute:` lines the mute state,
/// and a line starting a new sink or naming one at the top level ends it.
pub open spec fn scan_step(st: ScanState, line: Seq<char>, marker: Seq<char>) -> ScanState {
    if st.stopped {
        st
    } else if contains_text(line, marker) {
        ScanState { in_sink: true, ..st }
    } else if st.in_sink {
        let volumes = if starts_with_text(line, "\tVolume:"@) {
            match volume_text(line) {
                Some(v) => st.volumes.push(v),
                None => st.volumes,
            }
        } else {
            st.volumes
        };
        let muted = if contains_text(line, "Mute:"@) {
            contains_text(line, "yes"@)
        } else {
            st.muted
        };
        let stop = starts_with_text(line, "Sink #"@) || (!starts_with_text(line, "\t"@) && contains_text(
            line,
            "Name:"@,
        ));
        ScanState { in_sink: true, stopped: stop, volumes, muted }
    } else {
        st
    }
}

pub open spec fn scan_lines(lines: Seq<Seq<char>>, marker: Seq<char>) -> ScanState
    decreases lines.len(),
{
    if lines.len() == 0 {
        ScanState { in_sink: false, stopped: false, volumes: Seq::empty(), muted: false }
    } else {
        scan_step(scan_lines(lines.drop_last(), marker), lines.last(), marker)
    }
}

/// What `pactl list sinks` says of one sink.
pub struct SinkSection {
    /// The volume percentages shown for it, in order, as text; the last
    /// that reads as a number is its volume.
    pub volume_texts: Vec<String>,
    pub muted: bool,
}

fn volume_text_exec(line: &str) -> (r: Option<String>)
    ensures
        match volume_text(line@) {
            Some(v) => r matches Some(t) && t@ == v,
            None => r is None,
        },
{
    proof {
        reveal_strlit("/");
    }
    let parts = split_text(line, "/");
    proof {
        assert(texts(parts@) == split_parts(line@, "/"@));
    }
    if parts.len() > 1 {
        proof {
            assert(parts@[1]@ == texts(parts@)[1]);
        }
        let pct = trim_text(parts[1].as_str());
        match strip_suffix_text(pct, "%") {
            Some(num) => Some(trim_text(num.as_str()).to_owned()),
            None => None,
        }
    } else {
        None
    }
}

/// The section of the default sink `sink_name` in `pactl list sinks`'
/// output, or `None` when no line names it.
pub fn parse_sink_info(output: &str, sink_name: &str) -> (r: Option<SinkSection>)
    ensures
        ({
            let st = scan_lines(text_lines(output@), "Name: "@ + sink_name@);
            &&& st.in_sink ==> (r matches Some(s) && texts(s.volume_texts@) == st.volumes && s.muted
                == st.muted)
            &&& !st.in_sink ==> r is None
        }),
{
    let marker = String::from_str("Name: ").concat(sink_name);
    let lines = lines_of(output);
    let ghost ls = text_lines(output@);
    let mut in_sink = false;
    let mut stopped = false;
    let mut volumes: Vec<String> = Vec::new();
    let mut muted = false;
    let mut i: usize = 0;
    proof {
        assert(ls.take(0) =~= Seq::<Seq<char>>::empty());
        assert(texts(volumes@) =~= Seq::<Seq<char>>::empty());
    }
    while i < lines.len()
        invariant
            i <= lines@.len(),
            texts(lines@) == ls,
            ls == text_lines(output@),
            marker@ == "Name: "@ + sink_name@,
            scan_lines(ls.take(i as int), marker@) == (ScanState {
                in_sink,
                stopped,
                volumes: texts(volumes@),
                muted,
            }),
        decreases lines@.len() - i,
    {
        let line = lines[i].as_str();
        proof {
            assert(lines@[i as int]@ == ls[i as int]);
            assert(ls.take(i + 1).drop_last() =~= ls.take(i as int));
            assert(ls.take(i + 1).last() == ls[i as int]);
        }
        if !stopped {
            if contains_exec(line, marker.as_str()) {
                in_sink = true;
            } else if in_sink {
                if starts_with_exec(line, "\tVolume:") {
                    match volume_text_exec(line) {
                        Some(v) => {
                            let ghost before = texts(volumes@);
                            volumes.push(v);
                            proof {
                                assert(texts(volumes@) =~= before.push(v@));
                            }
                        },
                        None => {},
                    }
                }
                if contains_exec(line, "Mute:") {
                    muted = contains_exec(line, "yes");
                }
                if starts_with_exec(line, "Sink #") || (!starts_with_exec(line, "\t") && contains_exec(
                    line,
                    "Name:",
                )) {
                    stopped = true;
                }
            }
        }
        i += 1;
    }
    proof {
        assert(ls.take(i as int) =~= ls);
    }
    if in_sink {
        Some(SinkSection { volume_texts: volumes, muted })
    } else {
        None
    }
}

/// The MPRIS players among the names on the session bus: those under
/// "org.mpris.MediaPlayer2.", without that prefix, in order.
pub open spec fn players_of(names: Seq<Seq<char>>) -> Seq<Seq<char>>
    decreases names.len(),
{
    if names.len() == 0 {
        Seq::empty()
    } else {
        let rest = players_of(names.drop_last());
        let n = names.last();
        if starts_with_text(n, "org.mpris.MediaPlayer2."@) {
            rest.push(n.skip("org.mpris.MediaPlayer2."@.len() as int))
        } else {
            rest
        }
    }
}

pub fn mpris_players(names: &Vec<String>) -> (r: Vec<String>)
    ensures
        texts(r@) == players_of(texts(names@)),
{
    let prefix = "org.mpris.MediaPlayer2.";
    let mut out: Vec<String> = Vec::new();
    let mut i: usize = 0;
    while i < names.len()
        invariant
            i <= names@.len(),
            prefix@ == "org.mpris.MediaPlayer2."@,
            texts(out@) == players_of(texts(names@).take(i as int)),
        decreases names@.len() - i,
    {
        let n = names[i].as_str();
        proof {
            assert(texts(names@).take(i + 1).drop_last() =~= texts(names@).take(i as int));
            assert(texts(names@).take(i + 1).last() == n@);
        }
        if starts_with_exec(n, prefix) {
            let ghost before = texts(out@);
            let len = n.unicode_len();
            let m = prefix.unicode_len();
            let stripped = n.substring_char(m, len).to_owned();
            out.push(stripped);
            proof {
                assert(texts(out@) =~= before.push(n@.skip(m as int)));
            }
        }
        i += 1;
    }
    proof {
        assert(texts(names@).take(i as int) =~= texts(names@));
    }
    out
}

/// A playback change to announce.
#[derive(Debug, Clone)]
pub struct MediaChange {
    pub player: String,
    pub state: String,
    /// The track title, when the player reports a non-empty one.
    pub title: Option<String>,
    /// The first artist, when the player reports a non-empty one.
    pub artist: Option<String>,
}

/// The last playback state announced for each player, and the players
/// seen on the previous round.
pub struct MprisTracker {
    pub last_players: Vec<String>,
    /// (player, state), newest last.
    pub last_state: Vec<(String, String)>,
}

/// The last state recorded for a player.
pub open spec fn state_of(entries: Seq<(String, String)>, player: Seq<char>) -> Option<Seq<char>>
    decreases entries.len(),
{
    if entries.len() == 0 {
        None
    } else if entries.last().0@ == player {
        Some(entries.last().1@)
    } else {
        state_of(entries.drop_last(), player)
    }
}

pub open spec fn or_empty(o: Option<Seq<char>>) -> Seq<char> {
    match o {
        Some(s) => s,
        None => Seq::empty(),
    }
}

pub open spec fn opt_nonempty(s: Seq<char>) -> Option<Seq<char>> {
    if s.len() > 0 {
        Some(s)
    } else {
        None
    }
}

pub open spec fn opt_text(o: Option<String>) -> Option<Seq<char>> {
    match o {
        Some(s) => Some(s@),
        None => None,
    }
}

fn nonempty(s: String) -> (r: Option<String>)
    ensures
        opt_text(r) == opt_nonempty(s@),
{
    if s.as_str().unicode_len() > 0 {
        Some(s)
    } else {
        None
    }
}

impl MprisTracker {
    pub fn new() -> (r: Self)
        ensures
            r.last_players@.len() == 0,
            r.last_state@.len() == 0,
    {
        MprisTracker { last_players: Vec::new(), last_state: Vec::new() }
    }

    fn previous_state(&self, player: &str) -> (r: String)
        ensures
            r@ == or_empty(state_of(self.last_state@, player@)),
    {
        let mut found = String::new();
        let n = self.last_state.len();
        let mut k: usize = 0;
        while k < n
            invariant
                n == self.last_state@.len(),
                k <= n,
                found@ == or_empty(state_of(self.last_state@.take(k as int), player@)),
            decreases n - k,
        {
            proof {
                assert(self.last_state@.take(k + 1).drop_last() =~= self.last_state@.take(k as int));
                assert(self.last_state@.take(k + 1).last() == self.last_state@[k as int]);
            }
            if text_eq(self.last_state[k].0.as_str(), player) {
                found = self.last_state[k].1.clone();
            }
            k += 1;
        }
        proof {
            assert(self.last_state@.take(n as int) =~= self.last_state@);
        }
        found
    }

    fn was_listed(&self, player: &str) -> (r: bool)
        ensures
            r == texts(self.last_players@).contains(player@),
    {
        let mut i: usize = 0;
        while i < self.last_players.len()
            invariant
                i <= self.last_players@.len(),
                forall|j: int| 0 <= j < i ==> self.last_players@[j]@ != player@,
            decreases self.last_players@.len() - i,
        {
            if text_eq(self.last_players[i].as_str(), player) {
                proof {
                    assert(texts(self.last_players@)[i as int] == player@);
                }
                return true;
            }
            i += 1;
        }
        proof {
            if texts(self.last_players@).contains(player@) {
                let j = choose|j: int| 0 <= j < texts(self.last_players@).len() && texts(self.last_players@)[j] == player@;
                assert(self.last_players@[j]@ == player@);
            }
        }
        false
    }

    /// A player's current playback: announced when its state differs from
    /// the last one announced for it (none counts as empty) or it was not
    /// seen on the previous round; the announced state is then remembered.
    pub fn observe(&mut self, player: String, state: String, title: String, artist: String) -> (r:
        Option<MediaChange>)
        ensures
            final(self).last_players@ == old(self).last_players@,
            ({
                let announce = state@ != or_empty(state_of(old(self).last_state@, player@)) || !texts(
                    old(self).last_players@,
                ).contains(player@);
                &&& announce ==> (r matches Some(c) && c.player@ == player@ && c.state@ == state@
                    && opt_text(c.title) == opt_nonempty(title@) && opt_text(c.artist) == opt_nonempty(
                    artist@,
                ))
                &&& announce ==> state_of(final(self).last_state@, player@) == Some(state@)
                &&& announce ==> forall|other: Seq<char>| other != player@ ==> state_of(
                    final(self).last_state@,
                    other,
                ) == state_of(old(self).last_state@, other)
                &&& !announce ==> r is None && final(self).last_state@ == old(self).last_state@
            }),
    {
        let prev = self.previous_state(player.as_str());
        let listed = self.was_listed(player.as_str());
        if text_eq(state.as_str(), prev.as_str()) && listed {
            return None;
        }
        let ghost before = self.last_state@;
        self.last_state.push((player.clone(), state.clone()));
        proof {
            assert(self.last_state@.drop_last() =~= before);
        }
        Some(MediaChange { player, state, title: nonempty(title), artist: nonempty(artist) })
    }

    /// End a polling round: the players seen on it become the previous ones.
    pub fn end_round(&mut self, players: Vec<String>)
        ensures
            final(self).last_players@ == players@,
            final(self).last_state@ == old(self).last_state@,
    {
        self.last_players = players;
    }
}

} // verus!
