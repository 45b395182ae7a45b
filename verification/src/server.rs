//! What the server tells about itself: the names of its models and its default voice.
use vstd::prelude::*;

use crate::config::Config;
use crate::text::chars_of;

verus! {

/// The models and default voice a running server reports.
#[derive(Debug, Clone)]
pub struct ServiceInfo {
    pub stt_model: String,
    pub tts_model: String,
    pub default_voice: String,
}

/// The index just after the last `/` of `s`, or zero when it has none.
pub open spec fn piece_start(s: Seq<char>) -> int
    decreases s.len(),
{
    if s.len() == 0 {
        0
    } else if s.last() == '/' {
        s.len() as int
    } else {
        piece_start(s.drop_last())
    }
}

/// The last piece between `/` separators of a path that is neither empty nor `.`; `None`
/// when there is none.
pub open spec fn last_piece(s: Seq<char>) -> Option<Seq<char>>
    decreases s.len(),
{
    if s.len() == 0 {
        None
    } else if s.last() == '/' {
        last_piece(s.drop_last())
    } else {
        let p = piece_start(s);
        if 0 <= p < s.len() && s.subrange(p, s.len() as int) == seq!['.'] {
            last_piece(s.subrange(0, p))
        } else {
            Some(s.subrange(p, s.len() as int))
        }
    }
}

/// The final component of a path, as `Path::file_name` gives it: its last piece, unless that
/// is `..`.
pub open spec fn file_name(path: Seq<char>) -> Option<Seq<char>> {
    match last_piece(path) {
        Some(p) => if p == seq!['.', '.'] {
            None
        } else {
            Some(p)
        },
        None => None,
    }
}

/// The index of the last `.` of `s`, or -1 when it has none.
pub open spec fn last_dot(s: Seq<char>) -> int
    decreases s.len(),
{
    if s.len() == 0 {
        -1
    } else if s.last() == '.' {
        s.len() - 1
    } else {
        last_dot(s.drop_last())
    }
}

/// The stem of a file name, as `Path::file_stem` gives it: the part before the final `.`,
/// or the whole name when it has no `.` or its only `.` is at the start.
pub open spec fn name_stem(name: Seq<char>) -> Seq<char> {
    let d = last_dot(name);
    if d <= 0 {
        name
    } else {
        name.subrange(0, d)
    }
}

/// The stem of the final component of a path.
pub open spec fn file_stem(path: Seq<char>) -> Option<Seq<char>> {
    match file_name(path) {
        Some(n) => Some(name_stem(n)),
        None => None,
    }
}

/// The name the recogniser's model goes by: the stem of its file, or `whisper` when the
/// path names no file.
pub open spec fn stt_model_name_of(path: Seq<char>) -> Seq<char> {
    match file_stem(path) {
        Some(s) => s,
        None => "whisper"@,
    }
}

proof fn lemma_piece_start_bounds(s: Seq<char>)
    ensures
        0 <= piece_start(s) <= s.len(),
        s.len() > 0 && s.last() != '/' ==> piece_start(s) < s.len(),
    decreases s.len(),
{
    if s.len() > 0 && s.last() != '/' {
        lemma_piece_start_bounds(s.drop_last());
    }
}

/// The bounds `(start, end)` in `c` of its last piece, if it has one.
fn last_piece_bounds(c: &Vec<char>) -> (r: Option<(usize, usize)>)
    ensures
        r is None ==> last_piece(c@) is None,
        r matches Some((a, b)) ==> a < b <= c.len() && last_piece(c@) == Some(
            c@.subrange(a as int, b as int),
        ),
{
    let mut end = c.len();
    assert(c@.subrange(0, end as int) =~= c@);
    loop
        invariant
            end <= c.len(),
            last_piece(c@) == last_piece(c@.subrange(0, end as int)),
        decreases end,
    {
        let ghost end0 = end;
        while end > 0 && c[end - 1] == '/'
            invariant
                end <= end0,
                end <= c.len(),
                last_piece(c@) == last_piece(c@.subrange(0, end as int)),
            decreases end,
        {
            assert(c@.subrange(0, end as int).drop_last() =~= c@.subrange(0, end - 1));
            end = end - 1;
        }
        if end == 0 {
            return None;
        }
        let ghost s = c@.subrange(0, end as int);
        let mut start = end;
        while start > 0 && c[start - 1] != '/'
            invariant
                start <= end <= c.len(),
                end <= end0,
                end > 0,
                s == c@.subrange(0, end as int),
                c@[end - 1] != '/',
                piece_start(s) == piece_start(c@.subrange(0, start as int)),
            decreases start,
        {
            assert(c@.subrange(0, start as int).drop_last() =~= c@.subrange(0, start - 1));
            start = start - 1;
        }
        assert(start == 0 ==> c@.subrange(0, start as int) =~= Seq::<char>::empty());
        assert(piece_start(s) == start);
        assert(s.subrange(start as int, end as int) =~= c@.subrange(start as int, end as int));
        assert(s.subrange(0, start as int) =~= c@.subrange(0, start as int));
        if end - start == 1 && c[start] == '.' {
            assert(c@.subrange(start as int, end as int) =~= seq!['.']);
            end = start;
        } else {
            assert(c@.subrange(start as int, end as int) != seq!['.']) by {
                if end - start == 1 {
                    assert(c@.subrange(start as int, end as int)[0] == c@[start as int]);
                }
            }
            return Some((start, end));
        }
    }
}

/// The index of the last `.` in `c[a..b]`, counted from `a`, if it has one.
fn last_dot_in(c: &Vec<char>, a: usize, b: usize) -> (d: Option<usize>)
    requires
        a <= b <= c.len(),
    ensures
        d is None ==> last_dot(c@.subrange(a as int, b as int)) == -1,
        d matches Some(k) ==> k == last_dot(c@.subrange(a as int, b as int)) && a + k < b,
{
    let mut i = b;
    while i > a && c[i - 1] != '.'
        invariant
            a <= i <= b <= c.len(),
            last_dot(c@.subrange(a as int, b as int)) == last_dot(c@.subrange(a as int, i as int)),
        decreases i,
    {
        assert(c@.subrange(a as int, i as int).drop_last() =~= c@.subrange(a as int, i - 1));
        i = i - 1;
    }
    if i == a {
        assert(c@.subrange(a as int, i as int) =~= Seq::<char>::empty());
        None
    } else {
        Some(i - a - 1)
    }
}

/// The name the recogniser's model goes by: the stem of the file its path names, or
/// `whisper` when the path names no file.
pub fn stt_model_name(model_path: &str) -> (name: String)
    ensures
        name@ == stt_model_name_of(model_path@),
{
    let c = chars_of(model_path);
    match last_piece_bounds(&c) {
        None => String::from_str("whisper"),
        Some((a, b)) => {
            let ghost piece = c@.subrange(a as int, b as int);
            if b - a == 2 && c[a] == '.' && c[a + 1] == '.' {
                assert(piece =~= seq!['.', '.']);
                return String::from_str("whisper");
            }
            assert(piece != seq!['.', '.']) by {
                if piece == seq!['.', '.'] {
                    assert(piece.len() == 2);
                    assert(piece[0] == c@[a as int]);
                    assert(piece[1] == c@[a + 1]);
                    assert(seq!['.', '.'][0] == '.' && seq!['.', '.'][1] == '.');
                }
            }
            match last_dot_in(&c, a, b) {
                Some(d) if d > 0 => {
                    let cut = a + d;
                    assert(piece.subrange(0, d as int) =~= c@.subrange(a as int, cut as int));
                    model_path.substring_char(a, cut).to_owned()
                },
                _ => model_path.substring_char(a, b).to_owned(),
            }
        },
    }
}

/// The name the synthesiser's model goes by: `qwen3-tts-` and the configured variant.
pub fn tts_model_name(model: &str) -> (name: String)
    ensures
        name@ == "qwen3-tts-"@ + model@,
{
    let mut name = String::from_str("qwen3-tts-");
    name.append(model);
    name
}

/// What a server with configuration `config` reports about itself.
pub fn service_info(config: &Config) -> (info: ServiceInfo)
    ensures
        info.stt_model@ == stt_model_name_of(config.stt.model_path@),
        info.tts_model@ == "qwen3-tts-"@ + config.tts.model@,
        info.default_voice == config.tts.default_voice,
{
    ServiceInfo {
        stt_model: stt_model_name(config.stt.model_path.as_str()),
        tts_model: tts_model_name(config.tts.model.as_str()),
        default_voice: config.tts.default_voice.clone(),
    }
}

/// No character after the last `/` of a path is a `/`.
proof fn lemma_piece_has_no_slash(s: Seq<char>)
    ensures
        forall|i: int| piece_start(s) <= i < s.len() ==> s[i] != '/',
    decreases s.len(),
{
    if s.len() > 0 && s.last() != '/' {
        lemma_piece_has_no_slash(s.drop_last());
        lemma_piece_start_bounds(s.drop_last());
        assert forall|i: int| piece_start(s) <= i < s.len() implies s[i] != '/' by {
            if i < s.len() - 1 {
                assert(s[i] == s.drop_last()[i]);
            }
        }
    }
}

/// The last piece of a path is not empty and holds no `/`.
proof fn lemma_last_piece_plain(s: Seq<char>)
    ensures
        last_piece(s) matches Some(p) ==> p.len() > 0 && forall|i: int|
            0 <= i < p.len() ==> p[i] != '/',
    decreases s.len(),
{
    if s.len() == 0 {
    } else if s.last() == '/' {
        lemma_last_piece_plain(s.drop_last());
    } else {
        let p = piece_start(s);
        lemma_piece_start_bounds(s);
        lemma_piece_has_no_slash(s);
        if s.subrange(p, s.len() as int) == seq!['.'] {
            lemma_last_piece_plain(s.subrange(0, p));
        }
    }
}

/// The name the recogniser's model goes by is never empty and never holds a `/`.
pub proof fn lemma_stt_model_name_plain(path: Seq<char>)
    ensures
        stt_model_name_of(path).len() > 0,
        forall|i: int| 0 <= i < stt_model_name_of(path).len() ==> stt_model_name_of(path)[i] != '/',
{
    reveal_strlit("whisper");
    lemma_last_piece_plain(path);
    match file_name(path) {
        Some(n) => {
            let d = last_dot(n);
            lemma_last_dot_bounds(n);
            if d > 0 {
                assert forall|i: int| 0 <= i < d implies #[trigger] n.subrange(0, d)[i] != '/' by {
                    assert(n.subrange(0, d)[i] == n[i]);
                }
            }
        },
        None => {},
    }
}

/// The last `.` of a sequence lies within it.
proof fn lemma_last_dot_bounds(s: Seq<char>)
    ensures
        -1 <= last_dot(s) < s.len(),
    decreases s.len(),
{
    if s.len() > 0 && s.last() != '.' {
        lemma_last_dot_bounds(s.drop_last());
    }
}

} // verus!
