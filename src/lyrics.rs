//! The lyrics endpoint of the playback node: where to ask, and the text
//! made of its answer.

use vstd::prelude::*;
use vstd::string::*;

use crate::text::join_lines;

verus! {

/// One line of lyrics.
#[derive(Debug, Clone)]
pub struct LyricLine {
    pub line: String,
}

/// The node's answer to a lyrics request.
#[derive(Debug, Clone)]
pub struct LyricsApiResponse {
    pub lines: Vec<LyricLine>,
}

/// The texts of `lines`.
pub open spec fn line_texts(lines: Seq<LyricLine>) -> Seq<Seq<char>> {
    lines.map_values(|l: LyricLine| l.line@)
}

impl LyricsApiResponse {
    /// The lyrics: the lines joined by line breaks.
    pub fn text(&self) -> (r: String)
        ensures
            r@ == join_lines(line_texts(self.lines@)),
    {
        let mut text = String::new();
        let mut i: usize = 0;
        while i < self.lines.len()
            invariant
                i <= self.lines@.len(),
                text@ == join_lines(line_texts(self.lines@.take(i as int))),
            decreases self.lines@.len() - i,
        {
            let ghost before = text@;
            proof {
                reveal_strlit("\n");
            }
            if i > 0 {
                text.append("\n");
            }
            text.append(self.lines[i].line.as_str());
            proof {
                let ls = line_texts(self.lines@.take(i + 1));
                assert(ls.drop_last() =~= line_texts(self.lines@.take(i as int)));
                if i == 0 {
                    assert(text@ =~= ls[0]);
                } else {
                    assert(text@ =~= before + seq!['\n'] + ls.last());
                }
            }
            i = i + 1;
        }
        assert(self.lines@.take(self.lines@.len() as int) =~= self.lines@);
        text
    }
}

/// Where the node serves the lyrics of the track playing in a guild.
pub fn lyrics_url(address: &str, session_id: &str, guild_id: &str) -> (r: String)
    ensures
        r@ == address@ + "/v4/sessions/"@ + session_id@ + "/players/"@ + guild_id@
            + "/track/lyrics?skipTrackSource=false"@,
{
    let mut url = String::from_str(address);
    url.append("/v4/sessions/");
    url.append(session_id);
    url.append("/players/");
    url.append(guild_id);
    url.append("/track/lyrics?skipTrackSource=false");
    url
}

} // verus!
