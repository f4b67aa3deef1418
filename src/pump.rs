use vstd::prelude::*;
use vstd::string::*;
use vstd::utf8::*;

use crate::error::Error;
use crate::text::views;

verus! {

/// The byte that ends a line.
pub open spec fn newline() -> u8 {
    10u8
}

/// The bytes after the last newline of `s`: the line still being read.
pub open spec fn last_segment(s: Seq<u8>) -> Seq<u8>
    decreases s.len(),
{
    if s.len() == 0 {
        s
    } else if s.last() == newline() {
        Seq::empty()
    } else {
        last_segment(s.drop_last()).push(s.last())
    }
}

/// The complete lines of `s`, each without its newline.
pub open spec fn line_list(s: Seq<u8>) -> Seq<Seq<u8>>
    decreases s.len(),
{
    if s.len() == 0 {
        Seq::empty()
    } else if s.last() == newline() {
        line_list(s.drop_last()).push(last_segment(s.drop_last()))
    } else {
        line_list(s.drop_last())
    }
}

/// Every complete line of `s` is valid UTF-8.
pub open spec fn lines_ok(s: Seq<u8>) -> bool
    decreases s.len(),
{
    if s.len() == 0 {
        true
    } else {
        lines_ok(s.drop_last()) && (s.last() == newline() ==> valid_utf8(
            last_segment(s.drop_last()),
        ))
    }
}

/// The text of the complete lines of `s`: the bodies of their log records.
pub open spec fn logged_lines(s: Seq<u8>) -> Seq<Seq<char>> {
    line_list(s).map_values(|l: Seq<u8>| decode_utf8(l))
}

/// The lines, each followed by a newline.
pub open spec fn joined(lines: Seq<Seq<char>>) -> Seq<char>
    decreases lines.len(),
{
    if lines.len() == 0 {
        Seq::empty()
    } else {
        joined(lines.drop_last()) + lines.last() + seq!['\n']
    }
}

/// Log records: each line behind the prefix.
pub open spec fn records(prefix: Seq<char>, lines: Seq<Seq<char>>) -> Seq<Seq<char>> {
    lines.map_values(|l: Seq<char>| prefix + l)
}

/// What the whole of a stream yields once it has ended: the captured text
/// and, where the stream does not end with a newline, the record of its last
/// line, marked `[eof]`.
pub open spec fn capture_outcome(prefix: Seq<char>, s: Seq<u8>) -> Option<
    (Seq<char>, Option<Seq<char>>),
> {
    if !lines_ok(s) || !valid_utf8(last_segment(s)) {
        None
    } else if last_segment(s).len() == 0 {
        Some((joined(logged_lines(s)), None))
    } else {
        Some(
            (
                joined(logged_lines(s)) + decode_utf8(last_segment(s)),
                Some(prefix + decode_utf8(last_segment(s)) + "[eof]"@),
            ),
        )
    }
}

/// Relies on `std::str::from_utf8`: it accepts exactly the valid UTF-8
/// sequences and decodes them.
#[verifier::external_body]
fn decode_text(bytes: &[u8]) -> (r: Option<String>)
    ensures
        r is Some <==> valid_utf8(bytes@),
        r matches Some(s) ==> s@ == decode_utf8(bytes@),
{
    std::str::from_utf8(bytes).ok().map(|s| s.to_owned())
}

/// Splits one output stream of a process into log records while capturing
/// its text. Bytes come in chunks as they are read; each complete line gives
/// one record, the prefix followed by the line without its newline.
pub struct OutputPump {
    prefix: String,
    pending: Vec<u8>,
    captured: String,
    stream: Ghost<Seq<u8>>,
}

impl OutputPump {
    /// Everything fed so far.
    pub closed spec fn stream(&self) -> Seq<u8> {
        self.stream@
    }

    /// What each record starts with.
    pub closed spec fn prefix(&self) -> Seq<char> {
        self.prefix@
    }

    pub closed spec fn wf(&self) -> bool {
        &&& lines_ok(self.stream@)
        &&& self.pending@ == last_segment(self.stream@)
        &&& self.captured@ == joined(logged_lines(self.stream@))
    }

    /// A pump that has read nothing yet.
    pub fn new(prefix: &str) -> (r: OutputPump)
        ensures
            r.wf(),
            r.stream() == Seq::<u8>::empty(),
            r.prefix() == prefix@,
    {
        OutputPump {
            prefix: prefix.to_owned(),
            pending: Vec::new(),
            captured: String::new(),
            stream: Ghost(Seq::empty()),
        }
    }

    fn step(&mut self, b: u8) -> (r: Result<Option<String>, Error>)
        requires
            old(self).wf(),
        ensures
            final(self).prefix() == old(self).prefix(),
            r is Ok <==> lines_ok(old(self).stream().push(b)),
            r is Err ==> r == Err::<Option<String>, Error>(Error::InvalidUtf8),
            r is Ok ==> final(self).wf() && final(self).stream() == old(self).stream().push(b),
            r matches Ok(rec) ==> {
                &&& b == newline() <==> rec is Some
                &&& rec matches Some(line) ==> line@ == old(self).prefix() + decode_utf8(
                    last_segment(old(self).stream()),
                )
            },
    {
        let ghost s0 = self.stream@;
        let ghost s1 = s0.push(b);
        assert(s1.drop_last() == s0);
        if b != 10u8 {
            self.pending.push(b);
            self.stream = Ghost(s1);
            Ok(None)
        } else {
            match decode_text(self.pending.as_slice()) {
                None => Err(Error::InvalidUtf8),
                Some(body) => {
                    self.captured.append(body.as_str());
                    self.captured.append("\n");
                    let mut record = self.prefix.clone();
                    record.append(body.as_str());
                    self.pending = Vec::new();
                    self.stream = Ghost(s1);
                    proof {
                        reveal_strlit("\n");
                        let l0 = logged_lines(s0);
                        assert(logged_lines(s1) =~= l0.push(decode_utf8(last_segment(s0))));
                        assert(logged_lines(s1).drop_last() == l0);
                        assert(self.captured@ =~= joined(logged_lines(s1)));
                        assert(self.pending@ =~= last_segment(s1));
                    }
                    Ok(Some(record))
                },
            }
        }
    }

    /// Takes the next chunk of the stream and gives the records of the lines
    /// that it completes. Fails when one of those lines is not valid UTF-8.
    pub fn feed(&mut self, chunk: &[u8]) -> (r: Result<Vec<String>, Error>)
        requires
            old(self).wf(),
        ensures
            r is Ok <==> lines_ok(old(self).stream() + chunk@),
            r is Err ==> r == Err::<Vec<String>, Error>(Error::InvalidUtf8),
            r is Ok ==> {
                &&& final(self).wf()
                &&& final(self).stream() == old(self).stream() + chunk@
                &&& final(self).prefix() == old(self).prefix()
            },
            r matches Ok(recs) ==> views(recs@) == records(
                old(self).prefix(),
                logged_lines(old(self).stream() + chunk@).skip(
                    logged_lines(old(self).stream()).len() as int,
                ),
            ),
    {
        let ghost s0 = self.stream();
        let ghost n0 = logged_lines(s0).len();
        let mut out: Vec<String> = Vec::new();
        let mut i: usize = 0;
        proof {
            assert(s0 + chunk@.take(0) =~= s0);
        }
        while i < chunk.len()
            invariant
                i <= chunk@.len(),
                s0 == old(self).stream(),
                self.wf(),
                self.prefix() == old(self).prefix(),
                self.stream() == s0 + chunk@.take(i as int),
                n0 <= logged_lines(self.stream()).len(),
                views(out@) == records(self.prefix(), logged_lines(self.stream()).skip(n0 as int)),
            decreases chunk@.len() - i,
        {
            let ghost before = self.stream();
            let ghost outs = views(out@);
            let b = chunk[i];
            match self.step(b) {
                Err(e) => {
                    proof {
                        assert(before.push(b) =~= (s0 + chunk@).take(s0.len() + i + 1));
                        if lines_ok(s0 + chunk@) {
                            lemma_lines_ok_prefix(s0 + chunk@, s0.len() + i + 1);
                        }
                    }
                    return Err(e);
                },
                Ok(rec) => {
                    proof {
                        assert(before.push(b).drop_last() == before);
                        assert(s0 + chunk@.take(i + 1) =~= before.push(b));
                    }
                    match rec {
                        Some(line) => {
                            out.push(line);
                            proof {
                                let l1 = logged_lines(before.push(b));
                                assert(l1 =~= logged_lines(before).push(
                                    decode_utf8(last_segment(before)),
                                ));
                                assert(views(out@) =~= outs.push(line@));
                                assert(l1.skip(n0 as int) =~= logged_lines(before).skip(
                                    n0 as int,
                                ).push(decode_utf8(last_segment(before))));
                            }
                        },
                        None => {
                            proof {
                                assert(logged_lines(before.push(b)) =~= logged_lines(before));
                            }
                        },
                    }
                },
            }
            i += 1;
        }
        proof {
            assert(chunk@.take(chunk@.len() as int) == chunk@);
        }
        Ok(out)
    }

    /// Ends the stream: gives the captured text and, where the stream does
    /// not end with a newline, the record of its last line marked `[eof]`.
    pub fn finish(self) -> (r: Result<(String, Option<String>), Error>)
        requires
            self.wf(),
        ensures
            r is Err <==> capture_outcome(self.prefix(), self.stream()) is None,
            r is Err ==> r == Err::<(String, Option<String>), Error>(Error::InvalidUtf8),
            r matches Ok(p) ==> capture_outcome(self.prefix(), self.stream()) == Some(
                (
                    p.0@,
                    match p.1 {
                        Some(t) => Some(t@),
                        None => None::<Seq<char>>,
                    },
                ),
            ),
    {
        let OutputPump { prefix, pending, captured, stream } = self;
        if pending.len() == 0 {
            proof {
                assert(valid_utf8(Seq::<u8>::empty())) by {
                    assert(decode_utf8(Seq::<u8>::empty()) =~= Seq::<char>::empty());
                }
                assert(pending@ =~= Seq::<u8>::empty());
            }
            return Ok((captured, None));
        }
        match decode_text(pending.as_slice()) {
            None => Err(Error::InvalidUtf8),
            Some(tail) => {
                let mut captured = captured;
                captured.append(tail.as_str());
                let mut record = prefix;
                record.append(tail.as_str());
                record.append("[eof]");
                Ok((captured, Some(record)))
            },
        }
    }
}

/// A prefix of a stream whose lines are valid has valid lines.
proof fn lemma_lines_ok_prefix(s: Seq<u8>, k: int)
    requires
        0 <= k <= s.len(),
        lines_ok(s),
    ensures
        lines_ok(s.take(k)),
    decreases s.len(),
{
    if k == s.len() {
        assert(s.take(k) == s);
    } else {
        lemma_lines_ok_prefix(s.drop_last(), k);
        assert(s.drop_last().take(k) == s.take(k));
    }
}

/// The UTF-8 encoding of two texts side by side is their encodings side by side.
proof fn lemma_encode_concat(a: Seq<char>, b: Seq<char>)
    ensures
        encode_utf8(a + b) == encode_utf8(a) + encode_utf8(b),
    decreases a.len(),
{
    if a.len() == 0 {
        assert(a + b == b);
    } else {
        assert((a + b).drop_first() == a.drop_first() + b);
        assert((a + b)[0] == a[0]);
        lemma_encode_concat(a.drop_first(), b);
        assert(encode_utf8(a + b) == encode_scalar(a[0] as u32) + encode_utf8(
            a.drop_first() + b,
        ));
        assert(encode_utf8(a) + encode_utf8(b) =~= encode_scalar(a[0] as u32) + (encode_utf8(
            a.drop_first(),
        ) + encode_utf8(b)));
    }
}

proof fn lemma_encode_newline()
    ensures
        encode_utf8(seq!['\n']) == seq![newline()],
{
    assert(seq!['\n'].drop_first() =~= Seq::<char>::empty());
    assert(('\n' as u32) == 10u32);
    assert((10u32 & 0x7Fu32) == 10u32) by (bit_vector);
    assert(encode_scalar('\n' as u32) =~= seq![newline()]);
    assert(encode_utf8(Seq::<char>::empty()) =~= Seq::<u8>::empty());
    assert(encode_utf8(seq!['\n']) =~= seq![newline()]);
}

/// The captured lines, encoded again, are the bytes read up to the last newline.
proof fn lemma_joined_lines_encode(s: Seq<u8>)
    requires
        lines_ok(s),
    ensures
        encode_utf8(joined(logged_lines(s))) + last_segment(s) == s,
    decreases s.len(),
{
    broadcast use decode_utf8_encode_utf8;

    if s.len() == 0 {
        assert(joined(logged_lines(s)) =~= Seq::<char>::empty());
        assert(encode_utf8(Seq::<char>::empty()) =~= Seq::<u8>::empty());
    } else {
        let p = s.drop_last();
        lemma_joined_lines_encode(p);
        if s.last() == newline() {
            let seg = last_segment(p);
            let lp = logged_lines(p);
            assert(logged_lines(s) =~= lp.push(decode_utf8(seg)));
            assert(logged_lines(s).drop_last() == lp);
            let j = joined(lp);
            assert(joined(logged_lines(s)) == j + decode_utf8(seg) + seq!['\n']);
            lemma_encode_concat(j + decode_utf8(seg), seq!['\n']);
            lemma_encode_concat(j, decode_utf8(seg));
            lemma_encode_newline();
            assert(encode_utf8(decode_utf8(seg)) == seg);
            assert(last_segment(s) =~= Seq::<u8>::empty());
            assert(s =~= p.push(newline()));
            assert(encode_utf8(joined(logged_lines(s))) + last_segment(s) =~= s);
        } else {
            assert(logged_lines(s) =~= logged_lines(p));
            assert(s =~= p.push(s.last()));
        }
    }
}

/// What a stream's records show is what is captured: the bodies of the line
/// records, each with its newline put back, followed by the body of the
/// `[eof]` record if there is one, are the captured text; and that text,
/// encoded again, is every byte that was read.
pub proof fn lemma_capture_matches_log(prefix: Seq<char>, s: Seq<u8>)
    requires
        capture_outcome(prefix, s) is Some,
    ensures
        ({
            let (text, eof) = capture_outcome(prefix, s).unwrap();
            &&& text == joined(logged_lines(s)) + match eof {
                Some(_) => decode_utf8(last_segment(s)),
                None => Seq::<char>::empty(),
            }
            &&& eof matches Some(t) ==> t == prefix + decode_utf8(last_segment(s)) + "[eof]"@
            &&& encode_utf8(text) == s
        }),
{
    broadcast use decode_utf8_encode_utf8;

    lemma_joined_lines_encode(s);
    let j = joined(logged_lines(s));
    let tail = last_segment(s);
    lemma_encode_concat(j, decode_utf8(tail));
    if tail.len() == 0 {
        assert(j + Seq::<char>::empty() == j);
        assert(s == encode_utf8(j) + tail);
        assert(encode_utf8(j) + tail =~= encode_utf8(j));
    }
}

} // verus!
