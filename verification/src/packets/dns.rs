//! The DNS layer: the twelve-byte header, then the declared questions and
//! answers. Question names are read as dot-joined labels; an answer's
//! name is only skipped (a compressed name ends the label walk at its
//! pointer), and its record data is summarized by record type.

use vstd::prelude::*;
use vstd::string::*;
use crate::render::{ascii_chars, ascii_to_string, spec_dec, dec_u64, spec_hex4, hex4_u16,
    spec_ipv4, ipv4_string, spec_ipv6, ipv6_string};
use crate::wire::{be16, read_be16};

verus! {

/// One parsed question.
pub struct DnsQuestion {
    pub name: String,
    pub qtype: u16,
}

/// One parsed answer: its record type and a textual summary of its data.
pub struct DnsAnswer {
    pub atype: u16,
    pub text: String,
}

/// The mathematical model of a question.
pub ghost struct DnsQuestionModel {
    pub name: Seq<char>,
    pub qtype: u16,
}

/// The mathematical model of an answer.
pub ghost struct DnsAnswerModel {
    pub atype: u16,
    pub text: Seq<char>,
}

impl View for DnsQuestion {
    type V = DnsQuestionModel;

    open spec fn view(&self) -> DnsQuestionModel {
        DnsQuestionModel { name: self.name@, qtype: self.qtype }
    }
}

impl DeepView for DnsQuestion {
    type V = DnsQuestionModel;

    open spec fn deep_view(&self) -> DnsQuestionModel {
        self.view()
    }
}

impl View for DnsAnswer {
    type V = DnsAnswerModel;

    open spec fn view(&self) -> DnsAnswerModel {
        DnsAnswerModel { atype: self.atype, text: self.text@ }
    }
}

impl DeepView for DnsAnswer {
    type V = DnsAnswerModel;

    open spec fn deep_view(&self) -> DnsAnswerModel {
        self.view()
    }
}

/// A decoded DNS message. Authority (nameserver) records share the
/// answers' record shape and are kept for the response summary.
pub struct DnsPacket {
    pub id: u16,
    pub is_query: bool,
    pub response_code: u8,
    pub questions: Vec<DnsQuestion>,
    pub answers: Vec<DnsAnswer>,
    pub nameservers: Vec<DnsAnswer>,
}

/// Whether every byte of a label is visible ASCII other than a dot.
pub open spec fn spec_label_ok(s: Seq<u8>) -> bool {
    forall|i: int| 0 <= i < s.len() ==> 33 <= #[trigger] s[i] <= 126 && s[i] != 46
}

/// Reads a plain (uncompressed) name at `i`: the dot-joined labels and
/// the index after the terminator. Fails on a compression pointer, on a
/// label that overruns the buffer, and on non-printable label bytes.
pub open spec fn spec_name(p: Seq<u8>, i: int) -> Option<(Seq<char>, int)>
    decreases p.len() - i,
{
    if i < 0 || i >= p.len() {
        None
    } else if p[i] == 0 {
        Some((Seq::empty(), i + 1))
    } else if p[i] >= 64 {
        None
    } else if i + 1 + p[i] > p.len() {
        None
    } else if !spec_label_ok(p.subrange(i + 1, i + 1 + p[i])) {
        None
    } else {
        match spec_name(p, i + 1 + p[i]) {
            None => None,
            Some((rest, end)) => {
                let label = ascii_chars(p.subrange(i + 1, i + 1 + p[i]));
                Some(
                    (
                        if rest.len() == 0 {
                            label
                        } else {
                            label + seq!['.'] + rest
                        },
                        end,
                    ),
                )
            },
        }
    }
}

/// The index after a possibly compressed name at `i`: a pointer occupies
/// two bytes and ends the walk.
pub open spec fn spec_name_end(p: Seq<u8>, i: int) -> Option<int>
    decreases p.len() - i,
{
    if i < 0 || i >= p.len() {
        None
    } else if p[i] == 0 {
        Some(i + 1)
    } else if p[i] >= 192 {
        if i + 2 <= p.len() {
            Some(i + 2)
        } else {
            None
        }
    } else if p[i] >= 64 {
        None
    } else if i + 1 + p[i] > p.len() {
        None
    } else {
        spec_name_end(p, i + 1 + p[i])
    }
}

/// The declared questions from `i`: each a name and four bytes of type
/// and class.
pub open spec fn spec_questions(p: Seq<u8>, i: int, count: nat) -> Option<
    (Seq<DnsQuestionModel>, int),
>
    decreases count,
{
    if count == 0 {
        Some((Seq::empty(), i))
    } else {
        match spec_name(p, i) {
            None => None,
            Some((name, e)) => {
                if e + 4 <= p.len() {
                    match spec_questions(p, e + 4, (count - 1) as nat) {
                        None => None,
                        Some((rest, end)) => Some(
                            (
                                seq![DnsQuestionModel { name: name, qtype: be16(p, e) }] + rest,
                                end,
                            ),
                        ),
                    }
                } else {
                    None
                }
            },
        }
    }
}

/// Reads a possibly compressed name at `i`, following compression
/// pointers, under a step budget that bounds any pointer chain: the
/// dot-joined labels. Fails on malformed bytes and on a chain the budget
/// cannot cover (a pointer loop); a budget of the buffer length covers
/// every well-formed chain, whose pointers go strictly backward.
pub open spec fn spec_name_deep(p: Seq<u8>, i: int, fuel: nat) -> Option<Seq<char>>
    decreases fuel,
{
    if fuel == 0 {
        None
    } else if i < 0 || i >= p.len() {
        None
    } else if p[i] == 0 {
        Some(Seq::empty())
    } else if p[i] >= 192 {
        if i + 2 <= p.len() {
            spec_name_deep(p, (p[i] - 192) * 256 + p[i + 1], (fuel - 1) as nat)
        } else {
            None
        }
    } else if p[i] >= 64 {
        None
    } else if i + 1 + p[i] > p.len() {
        None
    } else if !spec_label_ok(p.subrange(i + 1, i + 1 + p[i])) {
        None
    } else {
        match spec_name_deep(p, i + 1 + p[i], (fuel - 1) as nat) {
            None => None,
            Some(rest) => {
                let label = ascii_chars(p.subrange(i + 1, i + 1 + p[i]));
                Some(
                    if rest.len() == 0 {
                        label
                    } else {
                        label + seq!['.'] + rest
                    },
                )
            },
        }
    }
}

/// The textual summary of an answer's record data.
pub open spec fn spec_answer_text(p: Seq<u8>, atype: u16, rd: int, rdlen: nat) -> Seq<char>
    recommends
        0 <= rd,
        rd + rdlen <= p.len(),
{
    if atype == 1 && rdlen == 4 {
        "A "@ + spec_ipv4(p[rd], p[rd + 1], p[rd + 2], p[rd + 3])
    } else if atype == 28 && rdlen == 16 {
        "AAAA "@ + spec_ipv6(Seq::new(8, |k: int| be16(p, rd + 2 * k)))
    } else if atype == 5 {
        match spec_name_deep(p, rd, p.len()) {
            Some(name) => "CNAME "@ + name,
            None => "CNAME"@,
        }
    } else {
        "TYPE"@ + spec_dec(atype as nat)
    }
}

/// The declared answers from `i`: each a skipped name, a ten-byte record
/// header, and the declared record data.
pub open spec fn spec_answers(p: Seq<u8>, i: int, count: nat) -> Option<(Seq<DnsAnswerModel>, int)>
    decreases count,
{
    if count == 0 {
        Some((Seq::empty(), i))
    } else {
        match spec_name_end(p, i) {
            None => None,
            Some(e) => {
                if e + 10 <= p.len() {
                    let atype = be16(p, e);
                    let rdlen = be16(p, e + 8) as nat;
                    if e + 10 + rdlen <= p.len() {
                        match spec_answers(p, e + 10 + rdlen as int, (count - 1) as nat) {
                            None => None,
                            Some((rest, end)) => Some(
                                (
                                    seq![
                                        DnsAnswerModel {
                                            atype: atype,
                                            text: spec_answer_text(p, atype, e + 10, rdlen),
                                        },
                                    ] + rest,
                                    end,
                                ),
                            ),
                        }
                    } else {
                        None
                    }
                } else {
                    None
                }
            },
        }
    }
}

/// Whether a payload is a DNS message this decoder accepts: the header
/// and the declared questions, answers and authority records are all
/// complete.
pub open spec fn spec_dns_ok(p: Seq<u8>) -> bool {
    &&& p.len() >= 12
    &&& spec_questions(p, 12, be16(p, 4) as nat) is Some
    &&& match spec_questions(p, 12, be16(p, 4) as nat) {
        Some((_, qend)) => match spec_answers(p, qend, be16(p, 6) as nat) {
            Some((_, aend)) => spec_answers(p, aend, be16(p, 8) as nat) is Some,
            None => false,
        },
        None => false,
    }
}

fn parse_name(p: &[u8], i: usize) -> (r: Option<(String, usize)>)
    requires
        i <= p@.len(),
    ensures
        match r {
            Some((name, e)) => {
                &&& spec_name(p@, i as int) matches Some((n2, e2))
                &&& name@ == n2
                &&& e as int == e2
                &&& i < e <= p@.len()
            },
            None => spec_name(p@, i as int) is None,
        },
    decreases p@.len() - i,
{
    let n = p.len();
    if i >= n {
        return None;
    }
    let len = p[i];
    if len == 0 {
        return Some((String::new(), i + 1));
    }
    if len >= 64 {
        return None;
    }
    if len as usize > n - (i + 1) {
        return None;
    }
    let label_end = i + 1 + len as usize;
    let mut ok = true;
    let mut k: usize = i + 1;
    while k < label_end
        invariant
            i + 1 <= k <= label_end <= p@.len(),
            ok == (forall|q: int| i + 1 <= q < k ==> 33 <= #[trigger] p@[q] <= 126 && p@[q] != 46),
        decreases label_end - k,
    {
        if p[k] < 33 || p[k] > 126 || p[k] == 46 {
            ok = false;
        }
        k = k + 1;
    }
    proof {
        let lab = p@.subrange(i as int + 1, label_end as int);
        if ok {
            assert(spec_label_ok(lab)) by {
                assert(forall|q: int| 0 <= q < lab.len() ==> lab[q] == p@[i + 1 + q]);
            }
        } else {
            let w = choose|q: int|
                i + 1 <= q < label_end && !(33 <= #[trigger] p@[q] <= 126 && p@[q] != 46);
            assert(lab[w - i - 1] == p@[w]);
            assert(!spec_label_ok(lab));
        }
    }
    if !ok {
        return None;
    }
    match parse_name(p, label_end) {
        None => None,
        Some((rest, end)) => {
            let lb = &p[i + 1..label_end];
            proof {
                assert(lb@ =~= p@.subrange(i as int + 1, label_end as int));
                assert(forall|q: int| 0 <= q < lb@.len() ==> lb@[q] == p@[i + 1 + q]);
            }
            let mut name = ascii_to_string(lb);
            proof {
                assert(p@[label_end as int] == 0 ==> rest@.len() == 0);
                assert(p@[label_end as int] != 0 ==> rest@.len() >= p@[label_end as int]);
            }
            if p[label_end] == 0 {
                Some((name, end))
            } else {
                proof {
                    reveal_strlit(".");
                }
                name.append(".");
                name.append(rest.as_str());
                Some((name, end))
            }
        },
    }
}

fn name_end(p: &[u8], i: usize) -> (r: Option<usize>)
    requires
        i <= p@.len(),
    ensures
        match r {
            Some(e) => Some(e as int) == spec_name_end(p@, i as int) && i < e <= p@.len(),
            None => spec_name_end(p@, i as int) is None,
        },
    decreases p@.len() - i,
{
    let n = p.len();
    if i >= n {
        return None;
    }
    let len = p[i];
    if len == 0 {
        return Some(i + 1);
    }
    if len >= 192 {
        if n - i >= 2 {
            return Some(i + 2);
        } else {
            return None;
        }
    }
    if len >= 64 {
        return None;
    }
    if len as usize > n - (i + 1) {
        return None;
    }
    name_end(p, i + 1 + len as usize)
}

fn parse_name_deep(p: &[u8], i: usize, fuel: usize) -> (r: Option<(String, bool)>)
    ensures
        match r {
            Some((name, empty)) => {
                &&& spec_name_deep(p@, i as int, fuel as nat) == Some(name@)
                &&& empty == (name@.len() == 0)
            },
            None => spec_name_deep(p@, i as int, fuel as nat) is None,
        },
    decreases fuel,
{
    if fuel == 0 {
        return None;
    }
    let n = p.len();
    if i >= n {
        return None;
    }
    let len = p[i];
    if len == 0 {
        return Some((String::new(), true));
    }
    if len >= 192 {
        if n - i >= 2 {
            let ptr = (len as usize - 192) * 256 + p[i + 1] as usize;
            return parse_name_deep(p, ptr, fuel - 1);
        } else {
            return None;
        }
    }
    if len >= 64 {
        return None;
    }
    if len as usize > n - (i + 1) {
        return None;
    }
    let label_end = i + 1 + len as usize;
    if !label_ok(p, i + 1, label_end) {
        return None;
    }
    match parse_name_deep(p, label_end, fuel - 1) {
        None => None,
        Some((rest, rest_empty)) => {
            let lb = &p[i + 1..label_end];
            proof {
                assert(lb@ =~= p@.subrange(i as int + 1, label_end as int));
                assert(forall|q: int| 0 <= q < lb@.len() ==> lb@[q] == p@[i + 1 + q]);
            }
            let mut name = ascii_to_string(lb);
            if rest_empty {
                Some((name, false))
            } else {
                proof {
                    reveal_strlit(".");
                }
                name.append(".");
                name.append(rest.as_str());
                Some((name, false))
            }
        },
    }
}

fn label_ok(p: &[u8], from: usize, to: usize) -> (r: bool)
    requires
        from <= to <= p@.len(),
    ensures
        r == spec_label_ok(p@.subrange(from as int, to as int)),
{
    let mut ok = true;
    let mut k: usize = from;
    while k < to
        invariant
            from <= k <= to <= p@.len(),
            ok == (forall|q: int|
                from <= q < k ==> 33 <= #[trigger] p@[q] <= 126 && p@[q] != 46),
        decreases to - k,
    {
        if p[k] < 33 || p[k] > 126 || p[k] == 46 {
            ok = false;
        }
        k = k + 1;
    }
    proof {
        let lab = p@.subrange(from as int, to as int);
        if ok {
            assert(spec_label_ok(lab)) by {
                assert(forall|q: int| 0 <= q < lab.len() ==> lab[q] == p@[from + q]);
            }
        } else {
            let w = choose|q: int|
                from <= q < to && !(33 <= #[trigger] p@[q] <= 126 && p@[q] != 46);
            assert(lab[w - from] == p@[w]);
            assert(!spec_label_ok(lab));
        }
    }
    ok
}

fn answer_text(p: &[u8], atype: u16, rd: usize, rdlen: usize) -> (s: String)
    requires
        rd + rdlen <= p@.len(),
    ensures
        s@ == spec_answer_text(p@, atype, rd as int, rdlen as nat),
{
    if atype == 1 && rdlen == 4 {
        let mut s = String::from_str("A ");
        let a = ipv4_string(p[rd], p[rd + 1], p[rd + 2], p[rd + 3]);
        s.append(a.as_str());
        s
    } else if atype == 28 && rdlen == 16 {
        let n = p.len();
        let mut gs: Vec<u16> = Vec::new();
        let mut k: usize = 0;
        while k < 8
            invariant
                k <= 8,
                rd + 16 <= n,
                n == p@.len(),
                gs@.len() == k,
                forall|q: int| 0 <= q < k ==> gs@[q] == be16(p@, rd + 2 * q),
            decreases 8 - k,
        {
            gs.push(read_be16(p, rd + 2 * k));
            k = k + 1;
        }
        proof {
            assert(gs@ =~= Seq::new(8, |q: int| be16(p@, rd + 2 * q)));
        }
        let mut s = String::from_str("AAAA ");
        let a = ipv6_string(&gs);
        s.append(a.as_str());
        s
    } else if atype == 5 {
        match parse_name_deep(p, rd, p.len()) {
            Some((name, _)) => {
                let mut s = String::from_str("CNAME ");
                s.append(name.as_str());
                s
            },
            None => String::from_str("CNAME"),
        }
    } else {
        let mut s = String::from_str("TYPE");
        let d = dec_u64(atype as u64);
        s.append(d.as_str());
        s
    }
}

/// Decoder of the DNS layer.
pub struct DnsProcessor;

impl DnsProcessor {
    /// Creates the decoder.
    pub fn new() -> (p: DnsProcessor) {
        DnsProcessor
    }

    /// Decodes a DNS message: succeeds exactly when the header and the
    /// declared questions and answers are complete, and then yields the
    /// identifier, the direction, the response code, and the parsed
    /// questions, answers and authority records.
    pub fn process(&self, payload: &[u8]) -> (r: Result<DnsPacket, String>)
        ensures
            r is Ok <==> spec_dns_ok(payload@),
            r matches Err(e) ==> e@ == "Failed to parse DNS packet"@,
            r matches Ok(d) ==> {
                &&& spec_dns_ok(payload@)
                &&& d.id == be16(payload@, 0)
                &&& d.is_query == (payload@[2] < 128)
                &&& d.response_code == payload@[3] % 16
                &&& Some(d.questions.deep_view()) == match spec_questions(
                    payload@,
                    12,
                    be16(payload@, 4) as nat,
                ) {
                    Some((qs, _)) => Some(qs),
                    None => None::<Seq<DnsQuestionModel>>,
                }
                &&& Some(d.answers.deep_view()) == match spec_questions(
                    payload@,
                    12,
                    be16(payload@, 4) as nat,
                ) {
                    Some((_, qend)) => match spec_answers(
                        payload@,
                        qend,
                        be16(payload@, 6) as nat,
                    ) {
                        Some((ans, _)) => Some(ans),
                        None => None::<Seq<DnsAnswerModel>>,
                    },
                    None => None::<Seq<DnsAnswerModel>>,
                }
                &&& Some(d.nameservers.deep_view()) == match spec_questions(
                    payload@,
                    12,
                    be16(payload@, 4) as nat,
                ) {
                    Some((_, qend)) => match spec_answers(
                        payload@,
                        qend,
                        be16(payload@, 6) as nat,
                    ) {
                        Some((_, aend)) => match spec_answers(
                            payload@,
                            aend,
                            be16(payload@, 8) as nat,
                        ) {
                            Some((ns, _)) => Some(ns),
                            None => None::<Seq<DnsAnswerModel>>,
                        },
                        None => None::<Seq<DnsAnswerModel>>,
                    },
                    None => None::<Seq<DnsAnswerModel>>,
                }
            },
    {
        if payload.len() < 12 {
            return Err(String::from_str("Failed to parse DNS packet"));
        }
        let id = read_be16(payload, 0);
        let is_query = payload[2] < 128;
        let response_code = payload[3] % 16;
        let qdcount = read_be16(payload, 4);
        let ancount = read_be16(payload, 6);
        let nscount = read_be16(payload, 8);
        let mut questions: Vec<DnsQuestion> = Vec::new();
        let mut i: usize = 12;
        let mut c: usize = qdcount as usize;
        while c > 0
            invariant
                i <= payload@.len(),
                payload@.len() >= 12,
                qdcount == be16(payload@, 4),
                ancount == be16(payload@, 6),
                nscount == be16(payload@, 8),
                spec_questions(payload@, 12, qdcount as nat) == match spec_questions(
                    payload@,
                    i as int,
                    c as nat,
                ) {
                    Some((rest, end)) => Some::<(Seq<DnsQuestionModel>, int)>(
                        (questions.deep_view() + rest, end),
                    ),
                    None => None::<(Seq<DnsQuestionModel>, int)>,
                },
            decreases c,
        {
            match parse_name(payload, i) {
                None => {
                    proof {
                        assert(spec_questions(payload@, i as int, c as nat) is None);
                    }
                    return Err(String::from_str("Failed to parse DNS packet"));
                },
                Some((name, e)) => {
                    if payload.len() - e < 4 {
                        proof {
                            assert(spec_questions(payload@, i as int, c as nat) is None);
                        }
                        return Err(String::from_str("Failed to parse DNS packet"));
                    }
                    let qtype = read_be16(payload, e);
                    let ghost pre = questions.deep_view();
                    let ghost nm = name@;
                    questions.push(DnsQuestion { name, qtype });
                    proof {
                        let head = DnsQuestionModel { name: nm, qtype: be16(payload@, e as int) };
                        assert(questions.deep_view() =~= pre + seq![head]);
                        let so = spec_questions(payload@, e as int + 4, (c - 1) as nat);
                        if so is Some {
                            let r2 = so.unwrap().0;
                            assert(pre + (seq![head] + r2) =~= (pre + seq![head]) + r2);
                        }
                    }
                    i = e + 4;
                    c = c - 1;
                },
            }
        }
        let ghost qend = i as int;
        let mut answers: Vec<DnsAnswer> = Vec::new();
        let mut c2: usize = ancount as usize;
        while c2 > 0
            invariant
                i <= payload@.len(),
                payload@.len() >= 12,
                qdcount == be16(payload@, 4),
                ancount == be16(payload@, 6),
                nscount == be16(payload@, 8),
                spec_questions(payload@, 12, qdcount as nat) matches Some((qs, qe)) && qs
                    == questions.deep_view() && qe == qend,
                spec_answers(payload@, qend, ancount as nat) == match spec_answers(
                    payload@,
                    i as int,
                    c2 as nat,
                ) {
                    Some((rest, end)) => Some::<(Seq<DnsAnswerModel>, int)>(
                        (answers.deep_view() + rest, end),
                    ),
                    None => None::<(Seq<DnsAnswerModel>, int)>,
                },
            decreases c2,
        {
            match name_end(payload, i) {
                None => {
                    proof {
                        assert(spec_answers(payload@, i as int, c2 as nat) is None);
                    }
                    return Err(String::from_str("Failed to parse DNS packet"));
                },
                Some(e) => {
                    if payload.len() - e < 10 {
                        proof {
                            assert(spec_answers(payload@, i as int, c2 as nat) is None);
                        }
                        return Err(String::from_str("Failed to parse DNS packet"));
                    }
                    let atype = read_be16(payload, e);
                    let rdlen = read_be16(payload, e + 8) as usize;
                    if payload.len() - (e + 10) < rdlen {
                        proof {
                            assert(spec_answers(payload@, i as int, c2 as nat) is None);
                        }
                        return Err(String::from_str("Failed to parse DNS packet"));
                    }
                    let text = answer_text(payload, atype, e + 10, rdlen);
                    let ghost pre = answers.deep_view();
                    let ghost tx = text@;
                    answers.push(DnsAnswer { atype, text });
                    proof {
                        let head = DnsAnswerModel { atype: atype, text: tx };
                        assert(questions.deep_view() =~= questions.deep_view());
                        assert(answers.deep_view() =~= pre + seq![head]);
                        let so = spec_answers(payload@, e as int + 10 + rdlen as int, (c2 - 1) as nat);
                        if so is Some {
                            let r2 = so.unwrap().0;
                            assert(pre + (seq![head] + r2) =~= (pre + seq![head]) + r2);
                        }
                    }
                    i = e + 10 + rdlen;
                    c2 = c2 - 1;
                },
            }
        }
        let ghost aend = i as int;
        let mut nameservers: Vec<DnsAnswer> = Vec::new();
        let mut c3: usize = nscount as usize;
        while c3 > 0
            invariant
                i <= payload@.len(),
                payload@.len() >= 12,
                qdcount == be16(payload@, 4),
                ancount == be16(payload@, 6),
                nscount == be16(payload@, 8),
                spec_questions(payload@, 12, qdcount as nat) matches Some((qs, qe)) && qs
                    == questions.deep_view() && qe == qend,
                spec_answers(payload@, qend, ancount as nat) matches Some((ans, ae)) && ans
                    == answers.deep_view() && ae == aend,
                spec_answers(payload@, aend, nscount as nat) == match spec_answers(
                    payload@,
                    i as int,
                    c3 as nat,
                ) {
                    Some((rest, end)) => Some::<(Seq<DnsAnswerModel>, int)>(
                        (nameservers.deep_view() + rest, end),
                    ),
                    None => None::<(Seq<DnsAnswerModel>, int)>,
                },
            decreases c3,
        {
            match name_end(payload, i) {
                None => {
                    proof {
                        assert(spec_answers(payload@, i as int, c3 as nat) is None);
                    }
                    return Err(String::from_str("Failed to parse DNS packet"));
                },
                Some(e) => {
                    if payload.len() - e < 10 {
                        proof {
                            assert(spec_answers(payload@, i as int, c3 as nat) is None);
                        }
                        return Err(String::from_str("Failed to parse DNS packet"));
                    }
                    let atype = read_be16(payload, e);
                    let rdlen = read_be16(payload, e + 8) as usize;
                    if payload.len() - (e + 10) < rdlen {
                        proof {
                            assert(spec_answers(payload@, i as int, c3 as nat) is None);
                        }
                        return Err(String::from_str("Failed to parse DNS packet"));
                    }
                    let text = answer_text(payload, atype, e + 10, rdlen);
                    let ghost pre = nameservers.deep_view();
                    let ghost tx = text@;
                    nameservers.push(DnsAnswer { atype, text });
                    proof {
                        let head = DnsAnswerModel { atype: atype, text: tx };
                        assert(nameservers.deep_view() =~= pre + seq![head]);
                        let so = spec_answers(payload@, e as int + 10 + rdlen as int, (c3 - 1) as nat);
                        if so is Some {
                            let r2 = so.unwrap().0;
                            assert(pre + (seq![head] + r2) =~= (pre + seq![head]) + r2);
                        }
                    }
                    i = e + 10 + rdlen;
                    c3 = c3 - 1;
                },
            }
        }
        Ok(DnsPacket { id, is_query, response_code, questions, answers, nameservers })
    }
}

/// The name of a question type, or its number.
pub open spec fn spec_qtype_name(t: u16) -> Seq<char> {
    if t == 1 {
        "A"@
    } else if t == 2 {
        "NS"@
    } else if t == 5 {
        "CNAME"@
    } else if t == 6 {
        "SOA"@
    } else if t == 12 {
        "PTR"@
    } else if t == 15 {
        "MX"@
    } else if t == 16 {
        "TXT"@
    } else if t == 28 {
        "AAAA"@
    } else if t == 33 {
        "SRV"@
    } else if t == 255 {
        "All"@
    } else {
        "TYPE"@ + spec_dec(t as nat)
    }
}

/// The name of a nonzero response code.
pub open spec fn spec_rcode_name(rc: u8) -> Seq<char> {
    if rc == 1 {
        "FormatError"@
    } else if rc == 2 {
        "ServerFailure"@
    } else if rc == 3 {
        "NameError"@
    } else if rc == 4 {
        "NotImplemented"@
    } else if rc == 5 {
        "Refused"@
    } else {
        "Reserved("@ + spec_dec(rc as nat) + ")"@
    }
}

/// Answer summaries, each followed by a space.
pub open spec fn spec_answers_text(answers: Seq<DnsAnswerModel>) -> Seq<char>
    decreases answers.len(),
{
    if answers.len() == 0 {
        Seq::empty()
    } else {
        answers[0].text + seq![' '] + spec_answers_text(answers.drop_first())
    }
}

/// The CNAME records among a record list, each summary followed by a
/// space; other record kinds contribute nothing.
pub open spec fn spec_cname_records_text(records: Seq<DnsAnswerModel>) -> Seq<char>
    decreases records.len(),
{
    if records.len() == 0 {
        Seq::empty()
    } else {
        (if records[0].atype == 5 {
            records[0].text + seq![' ']
        } else {
            Seq::empty()
        }) + spec_cname_records_text(records.drop_first())
    }
}

/// The one-line summary of a DNS message: direction, identifier, the
/// first question, then for a response the answer summaries and the
/// authority section's CNAME records, and the response code when it
/// reports an error.
pub open spec fn spec_query_info(
    id: u16,
    is_query: bool,
    rcode: u8,
    questions: Seq<DnsQuestionModel>,
    answers: Seq<DnsAnswerModel>,
    nameservers: Seq<DnsAnswerModel>,
) -> Seq<char> {
    (if is_query {
        "Standard query "@
    } else {
        "Standard query response "@
    }) + "0x"@ + spec_hex4(id as nat) + seq![' '] + (if questions.len() > 0 {
        questions[0].name + seq![' '] + spec_qtype_name(questions[0].qtype)
    } else {
        Seq::empty()
    }) + (if !is_query && answers.len() > 0 {
        seq![' '] + spec_answers_text(answers)
    } else {
        Seq::empty()
    }) + (if !is_query {
        spec_cname_records_text(nameservers)
    } else {
        Seq::empty()
    }) + (if rcode != 0 {
        "RCode: "@ + spec_rcode_name(rcode)
    } else {
        Seq::empty()
    })
}

fn qtype_name(t: u16) -> (s: String)
    ensures
        s@ == spec_qtype_name(t),
{
    if t == 1 {
        String::from_str("A")
    } else if t == 2 {
        String::from_str("NS")
    } else if t == 5 {
        String::from_str("CNAME")
    } else if t == 6 {
        String::from_str("SOA")
    } else if t == 12 {
        String::from_str("PTR")
    } else if t == 15 {
        String::from_str("MX")
    } else if t == 16 {
        String::from_str("TXT")
    } else if t == 28 {
        String::from_str("AAAA")
    } else if t == 33 {
        String::from_str("SRV")
    } else if t == 255 {
        String::from_str("All")
    } else {
        let mut s = String::from_str("TYPE");
        let d = dec_u64(t as u64);
        s.append(d.as_str());
        s
    }
}

fn rcode_name(rc: u8) -> (s: String)
    ensures
        s@ == spec_rcode_name(rc),
{
    if rc == 1 {
        String::from_str("FormatError")
    } else if rc == 2 {
        String::from_str("ServerFailure")
    } else if rc == 3 {
        String::from_str("NameError")
    } else if rc == 4 {
        String::from_str("NotImplemented")
    } else if rc == 5 {
        String::from_str("Refused")
    } else {
        let mut s = String::from_str("Reserved(");
        let d = dec_u64(rc as u64);
        s.append(d.as_str());
        s.append(")");
        s
    }
}

impl DnsProcessor {
    /// Renders the one-line summary of a decoded message.
    pub fn get_query_info(&self, packet: &DnsPacket) -> (s: String)
        ensures
            s@ == spec_query_info(
                packet.id,
                packet.is_query,
                packet.response_code,
                packet.questions.deep_view(),
                packet.answers.deep_view(),
                packet.nameservers.deep_view(),
            ),
    {
        proof {
            reveal_strlit(" ");
        }
        let mut s = if packet.is_query {
            String::from_str("Standard query ")
        } else {
            String::from_str("Standard query response ")
        };
        s.append("0x");
        let h = hex4_u16(packet.id);
        s.append(h.as_str());
        s.append(" ");
        if packet.questions.len() > 0 {
            let q = &packet.questions[0];
            s.append(q.name.as_str());
            s.append(" ");
            let t = qtype_name(q.qtype);
            s.append(t.as_str());
            proof {
                assert(packet.questions.deep_view()[0] == packet.questions@[0].deep_view());
            }
        }
        if !packet.is_query && packet.answers.len() > 0 {
            s.append(" ");
            let n = packet.answers.len();
            let mut k: usize = 0;
            let ghost base = s@;
            proof {
                assert(packet.answers.deep_view().skip(0) =~= packet.answers.deep_view());
            }
            while k < n
                invariant
                    k <= n,
                    n == packet.answers@.len(),
                    packet.answers.deep_view().len() == n,
                    forall|q: int|
                        0 <= q < n ==> #[trigger] packet.answers.deep_view()[q]
                            == packet.answers@[q].deep_view(),
                    s@ + spec_answers_text(packet.answers.deep_view().skip(k as int)) == base
                        + spec_answers_text(packet.answers.deep_view()),
                decreases n - k,
            {
                let a = &packet.answers[k];
                proof {
                    reveal_strlit(" ");
                    assert(packet.answers.deep_view().skip(k as int)[0] == a.deep_view());
                    assert(packet.answers.deep_view().skip(k as int).drop_first()
                        =~= packet.answers.deep_view().skip(k as int + 1));
                }
                s.append(a.text.as_str());
                s.append(" ");
                k = k + 1;
            }
            proof {
                assert(packet.answers.deep_view().skip(n as int)
                    =~= Seq::<DnsAnswerModel>::empty());
            }
        }
        if !packet.is_query {
            let n = packet.nameservers.len();
            let mut k: usize = 0;
            let ghost base = s@;
            proof {
                assert(packet.nameservers.deep_view().skip(0)
                    =~= packet.nameservers.deep_view());
            }
            while k < n
                invariant
                    k <= n,
                    n == packet.nameservers@.len(),
                    packet.nameservers.deep_view().len() == n,
                    forall|q: int|
                        0 <= q < n ==> #[trigger] packet.nameservers.deep_view()[q]
                            == packet.nameservers@[q].deep_view(),
                    s@ + spec_cname_records_text(
                        packet.nameservers.deep_view().skip(k as int),
                    ) == base + spec_cname_records_text(packet.nameservers.deep_view()),
                decreases n - k,
            {
                let a = &packet.nameservers[k];
                proof {
                    reveal_strlit(" ");
                    assert(packet.nameservers.deep_view().skip(k as int)[0] == a.deep_view());
                    assert(packet.nameservers.deep_view().skip(k as int).drop_first()
                        =~= packet.nameservers.deep_view().skip(k as int + 1));
                }
                if a.atype == 5 {
                    s.append(a.text.as_str());
                    s.append(" ");
                }
                k = k + 1;
            }
            proof {
                assert(packet.nameservers.deep_view().skip(n as int)
                    =~= Seq::<DnsAnswerModel>::empty());
            }
        }
        if packet.response_code != 0 {
            s.append("RCode: ");
            let r = rcode_name(packet.response_code);
            s.append(r.as_str());
        }
        proof {
            assert(s@ =~= spec_query_info(
                packet.id,
                packet.is_query,
                packet.response_code,
                packet.questions.deep_view(),
                packet.answers.deep_view(),
                packet.nameservers.deep_view(),
            ));
        }
        s
    }

    /// The type name of the first question, or a note that none exists.
    pub fn get_query_type(&self, packet: &DnsPacket) -> (s: String)
        ensures
            s@ == if packet.questions.deep_view().len() > 0 {
                spec_qtype_name(packet.questions.deep_view()[0].qtype)
            } else {
                "No query"@
            },
    {
        if packet.questions.len() > 0 {
            proof {
                assert(packet.questions.deep_view()[0] == packet.questions@[0].deep_view());
            }
            qtype_name(packet.questions[0].qtype)
        } else {
            String::from_str("No query")
        }
    }

    /// The summary of the first answer, or a note that none exists.
    pub fn get_answer_type(&self, packet: &DnsPacket) -> (s: String)
        ensures
            s@ == if packet.answers.deep_view().len() > 0 {
                packet.answers.deep_view()[0].text
            } else {
                "No answer"@
            },
    {
        if packet.answers.len() > 0 {
            proof {
                assert(packet.answers.deep_view()[0] == packet.answers@[0].deep_view());
            }
            packet.answers[0].text.clone()
        } else {
            String::from_str("No answer")
        }
    }
}

} // verus!
