use vstd::prelude::*;
use crate::models::trello::TrelloConfig;
use crate::text::{trim, trimmed};

verus! {

/// The bot's commands.
#[derive(Clone, Debug)]
pub enum Command {
    /// Start the bot and get a welcome message.
    Start,
    /// Show the list of available commands.
    Help,
    /// Set up the Trello configuration from `board_id-api_key-api_token`.
    SetConfig(String),
    /// Test the current Trello configuration.
    TestConfig,
    /// Get an immediate report of the tasks.
    ReportNow,
}

impl Command {
    /// The command's name, as the bot's users type it after '/'.
    pub open spec fn spec_name(&self) -> Seq<char> {
        match self {
            Command::Start => "start"@,
            Command::Help => "help"@,
            Command::SetConfig(_) => "setconfig"@,
            Command::TestConfig => "testconfig"@,
            Command::ReportNow => "reportnow"@,
        }
    }

    /// The command's name, as the bot's users type it after '/'.
    pub fn name(&self) -> (r: String)
        ensures
            r@ == self.spec_name(),
    {
        match self {
            Command::Start => String::from_str("start"),
            Command::Help => String::from_str("help"),
            Command::SetConfig(_) => String::from_str("setconfig"),
            Command::TestConfig => String::from_str("testconfig"),
            Command::ReportNow => String::from_str("reportnow"),
        }
    }
}

/// The pieces of `s` between occurrences of `sep`, as `str::split` yields
/// them: one more piece than there are separators, empty pieces included.
pub open spec fn split_on(s: Seq<char>, sep: char) -> Seq<Seq<char>>
    decreases s.len(),
{
    if s.len() == 0 {
        seq![Seq::<char>::empty()]
    } else {
        let prev = split_on(s.drop_last(), sep);
        if s.last() == sep {
            prev.push(Seq::<char>::empty())
        } else {
            prev.update(prev.len() - 1, prev.last().push(s.last()))
        }
    }
}

/// The pieces, trimmed, of which those left empty by the trimming are dropped.
pub open spec fn kept_pieces(pieces: Seq<Seq<char>>) -> Seq<Seq<char>>
    decreases pieces.len(),
{
    if pieces.len() == 0 {
        Seq::<Seq<char>>::empty()
    } else {
        let kept = kept_pieces(pieces.drop_last());
        let t = trimmed(pieces.last());
        if t.len() > 0 {
            kept.push(t)
        } else {
            kept
        }
    }
}

/// The non-empty trimmed fields of a `/setconfig` argument, split at '-'.
pub open spec fn config_fields(s: Seq<char>) -> Seq<Seq<char>> {
    kept_pieces(split_on(s, '-'))
}

proof fn lemma_split_step(s: Seq<char>, i: int)
    requires
        0 <= i < s.len(),
    ensures
        split_on(s.take(i + 1), '-') == if s[i] == '-' {
            split_on(s.take(i), '-').push(Seq::<char>::empty())
        } else {
            let prev = split_on(s.take(i), '-');
            prev.update(prev.len() - 1, prev.last().push(s[i]))
        },
{
    assert(s.take(i + 1).drop_last() =~= s.take(i));
}

proof fn lemma_kept_nonempty(pieces: Seq<Seq<char>>)
    ensures
        forall|k: int| 0 <= k < kept_pieces(pieces).len() ==> #[trigger] kept_pieces(pieces)[k].len() > 0,
    decreases pieces.len(),
{
    if pieces.len() > 0 {
        lemma_kept_nonempty(pieces.drop_last());
        let kept = kept_pieces(pieces.drop_last());
        assert forall|k: int| 0 <= k < kept_pieces(pieces).len() implies #[trigger] kept_pieces(
            pieces,
        )[k].len() > 0 by {
            if k < kept.len() {
                assert(kept[k].len() > 0);
            }
        }
    }
}

proof fn lemma_split_nonempty(s: Seq<char>)
    ensures
        split_on(s, '-').len() >= 1,
    decreases s.len(),
{
    if s.len() > 0 {
        lemma_split_nonempty(s.drop_last());
    }
}

/// The views of a vector of strings.
pub open spec fn views(v: Seq<String>) -> Seq<Seq<char>> {
    v.map_values(|p: String| p@)
}

/// Parses the argument of `/setconfig`, `board_id-api_key-api_token`, into
/// the configuration of chat `user_id`. The argument is split at every '-';
/// the pieces are trimmed and the empty ones dropped; exactly three must
/// remain, which are the board id, the key and the token.
pub fn parse_trello_config(config_str: &str, user_id: i64) -> (r: Result<TrelloConfig, String>)
    ensures
        r is Ok <==> config_fields(config_str@).len() == 3,
        r matches Ok(c) ==> {
            &&& c.board@ == config_fields(config_str@)[0]
            &&& c.key@ == config_fields(config_str@)[1]
            &&& c.token@ == config_fields(config_str@)[2]
            &&& c.user_id == user_id
        },
        r matches Err(e) ==> e@ == "Invalid format. Expected 'board-key-token'"@,
{
    let ghost s = config_str@;
    let n = config_str.unicode_len();
    let mut parts: Vec<String> = Vec::new();
    let ghost mut raw: Seq<Seq<char>> = Seq::empty();
    let mut start: usize = 0;
    let mut i: usize = 0;
    assert(s.take(0) =~= Seq::<char>::empty());
    assert(s.subrange(0, 0) =~= Seq::<char>::empty());
    assert(split_on(s.take(0), '-') =~= raw.push(s.subrange(0, 0)));
    while i < n
        invariant
            n == s.len(),
            s == config_str@,
            start <= i <= n,
            split_on(s.take(i as int), '-') == raw.push(s.subrange(start as int, i as int)),
            views(parts@) == kept_pieces(raw),
        decreases n - i,
    {
        let c = config_str.get_char(i);
        proof {
            lemma_split_step(s, i as int);
        }
        if c == '-' {
            let piece = config_str.substring_char(start, i);
            let t = trim(piece);
            proof {
                assert(raw.push(s.subrange(start as int, i as int)).drop_last() =~= raw);
            }
            if !t.is_empty() {
                parts.push(t.to_string());
                proof {
                    assert(views(parts@) =~= views(parts@.drop_last()).push(t@));
                }
            }
            proof {
                raw = raw.push(s.subrange(start as int, i as int));
                assert(s.subrange(i + 1, i + 1) =~= Seq::<char>::empty());
            }
            start = i + 1;
        } else {
            proof {
                assert(s.subrange(start as int, i + 1) =~= s.subrange(start as int, i as int).push(
                    c,
                ));
                assert(raw.push(s.subrange(start as int, i as int)).update(
                    raw.len() as int,
                    s.subrange(start as int, i + 1),
                ) =~= raw.push(s.subrange(start as int, i + 1)));
            }
        }
        i = i + 1;
    }
    let piece = config_str.substring_char(start, n);
    let t = trim(piece);
    proof {
        assert(s.take(n as int) =~= s);
        assert(raw.push(s.subrange(start as int, n as int)).drop_last() =~= raw);
    }
    if !t.is_empty() {
        parts.push(t.to_string());
        proof {
            assert(views(parts@) =~= views(parts@.drop_last()).push(t@));
        }
    }
    assert(views(parts@) == config_fields(s));
    proof {
        lemma_kept_nonempty(split_on(s, '-'));
    }
    if parts.len() != 3 {
        return Err(String::from_str("Invalid format. Expected 'board-key-token'"));
    }
    assert(views(parts@)[0] == parts@[0]@);
    assert(views(parts@)[1] == parts@[1]@);
    assert(views(parts@)[2] == parts@[2]@);
    let board = parts[0].clone();
    let key = parts[1].clone();
    let token = parts[2].clone();
    if board.as_str().is_empty() || key.as_str().is_empty() || token.as_str().is_empty() {
        return Err(String::from_str("Board, key, and token must not be empty"));
    }
    Ok(TrelloConfig { board, key, token, user_id })
}

} // verus!

verus! {

proof fn lemma_split_without_sep(x: Seq<char>)
    requires
        !x.contains('-'),
    ensures
        split_on(x, '-') == seq![x],
    decreases x.len(),
{
    if x.len() > 0 {
        assert(!x.drop_last().contains('-')) by {
            if x.drop_last().contains('-') {
                let k = choose|k: int| 0 <= k < x.drop_last().len() && x.drop_last()[k] == '-';
                assert(x[k] == '-');
            }
        }
        lemma_split_without_sep(x.drop_last());
        assert(x[x.len() - 1] != '-');
        assert(x.drop_last().push(x.last()) =~= x);
        assert(seq![x.drop_last()].update(0, x.drop_last().push(x.last())) =~= seq![x]);
    } else {
        assert(x =~= Seq::<char>::empty());
    }
}

proof fn lemma_split_concat(x: Seq<char>, y: Seq<char>)
    ensures
        split_on(x + seq!['-'] + y, '-') == split_on(x, '-') + split_on(y, '-'),
    decreases y.len(),
{
    let z = x + seq!['-'] + y;
    if y.len() == 0 {
        assert(z.drop_last() =~= x);
        assert(split_on(x, '-').push(Seq::<char>::empty()) =~= split_on(x, '-') + seq![
            Seq::<char>::empty(),
        ]);
    } else {
        assert(z.drop_last() =~= x + seq!['-'] + y.drop_last());
        lemma_split_concat(x, y.drop_last());
        lemma_split_nonempty(y.drop_last());
        lemma_split_nonempty(x);
        let a = split_on(x, '-');
        let b = split_on(y.drop_last(), '-');
        if y.last() == '-' {
            assert((a + b).push(Seq::<char>::empty()) =~= a + b.push(Seq::<char>::empty()));
        } else {
            assert((a + b).update((a + b).len() - 1, (a + b).last().push(y.last())) =~= a
                + b.update(b.len() - 1, b.last().push(y.last())));
        }
    }
}

proof fn lemma_kept_concat(p: Seq<Seq<char>>, q: Seq<Seq<char>>)
    ensures
        kept_pieces(p + q) == kept_pieces(p) + kept_pieces(q),
    decreases q.len(),
{
    if q.len() == 0 {
        assert(p + q =~= p);
        assert(kept_pieces(p) + kept_pieces(q) =~= kept_pieces(p));
    } else {
        assert((p + q).drop_last() =~= p + q.drop_last());
        lemma_kept_concat(p, q.drop_last());
        let t = trimmed(q.last());
        if t.len() > 0 {
            assert((kept_pieces(p) + kept_pieces(q.drop_last())).push(t) =~= kept_pieces(p) + kept_pieces(q.drop_last()).push(t));
        }
    }
}

proof fn lemma_kept_single(x: Seq<char>)
    requires
        x.len() > 0,
        trimmed(x) == x,
    ensures
        kept_pieces(seq![x]) == seq![x],
{
    assert(seq![x].drop_last() =~= Seq::<Seq<char>>::empty());
    assert(kept_pieces(Seq::<Seq<char>>::empty()) =~= Seq::<Seq<char>>::empty());
    assert(seq![x].last() == x);
    assert(Seq::<Seq<char>>::empty().push(x) =~= seq![x]);
}

/// A `/setconfig` argument written as the bot's help shows it, board id, key
/// and token joined by '-', each non-empty, free of '-' and without leading
/// or trailing white space, gives back exactly those three fields, in order.
pub proof fn lemma_config_fields_roundtrip(board: Seq<char>, key: Seq<char>, token: Seq<char>)
    requires
        board.len() > 0,
        key.len() > 0,
        token.len() > 0,
        !board.contains('-'),
        !key.contains('-'),
        !token.contains('-'),
        trimmed(board) == board,
        trimmed(key) == key,
        trimmed(token) == token,
    ensures
        config_fields(board + seq!['-'] + key + seq!['-'] + token) == seq![board, key, token],
{
    let bk = board + seq!['-'] + key;
    lemma_split_concat(bk, token);
    lemma_split_concat(board, key);
    lemma_split_without_sep(board);
    lemma_split_without_sep(key);
    lemma_split_without_sep(token);
    let pieces = seq![board] + seq![key] + seq![token];
    assert(split_on(bk + seq!['-'] + token, '-') == pieces);
    lemma_kept_concat(seq![board] + seq![key], seq![token]);
    lemma_kept_concat(seq![board], seq![key]);
    lemma_kept_single(board);
    lemma_kept_single(key);
    lemma_kept_single(token);
    assert(seq![board] + seq![key] + seq![token] =~= seq![board, key, token]);
}

} // verus!
