//! The wire format of requests and responses.
//!
//! A message is the index of its variant as a variable-length integer,
//! followed by the variant's fields in their order: a text as a length and
//! its UTF-8 bytes, a `u8` as one byte, an optional text as a byte 0 or 1 and
//! then the text if there is one, a list of texts as their number and then
//! each text. One connection carries one request and one response, with no
//! length in front: a reader decodes from the first byte and fails where the
//! bytes end early.

use vstd::prelude::*;
use crate::codec::decode_text;
use crate::codec::decode_u8;
use crate::codec::decode_variant;
use crate::codec::decode_varint;
use crate::codec::encode_text;
use crate::codec::encode_varint;
use crate::codec::lemma_text_roundtrip;
use crate::codec::lemma_variant_roundtrip;
use crate::codec::lemma_varint_roundtrip;
use crate::codec::parse_text;
use crate::codec::parse_u8;
use crate::codec::parse_variant;
use crate::codec::parse_varint;
use crate::codec::rest_at;
use crate::codec::spec_text;
use crate::codec::spec_varint;
use crate::codec::text_fits;
use crate::codec::DecodeError;
use crate::message::Action;
use crate::message::ActionView;
use crate::message::Response;
use crate::message::ResponseView;
use crate::message::Share;
use crate::message::Shares;
use crate::message::Store;

verus! {

/// The bytes of the texts in `texts`, one after the other.
pub open spec fn spec_text_seq(texts: Seq<Seq<char>>) -> Seq<u8>
    decreases texts.len(),
{
    if texts.len() == 0 {
        Seq::empty()
    } else {
        spec_text(texts[0]) + spec_text_seq(texts.skip(1))
    }
}

/// Reads `count` texts from the front of `s`.
pub open spec fn parse_text_seq(s: Seq<u8>, count: nat) -> Result<
    (Seq<Seq<char>>, int),
    DecodeError,
>
    decreases count,
{
    if count == 0 {
        Ok((Seq::empty(), 0))
    } else {
        match parse_text(s) {
            Err(e) => Err(e),
            Ok((first, used)) => match parse_text_seq(s.skip(used), (count - 1) as nat) {
                Err(e) => Err(e),
                Ok((others, more)) => Ok((seq![first] + others, used + more)),
            },
        }
    }
}

/// The bytes of a list of texts: their number, then each text.
pub open spec fn spec_texts(texts: Seq<Seq<char>>) -> Seq<u8> {
    spec_varint(texts.len() as u64) + spec_text_seq(texts)
}

/// Reads a list of texts from the front of `s`.
pub open spec fn parse_texts(s: Seq<u8>) -> Result<(Seq<Seq<char>>, int), DecodeError> {
    match parse_varint(s) {
        Err(e) => Err(e),
        Ok((count, used)) => if count > usize::MAX {
            Err(DecodeError::LengthOverflow)
        } else {
            match parse_text_seq(s.skip(used), count as nat) {
                Err(e) => Err(e),
                Ok((texts, more)) => Ok((texts, used + more)),
            }
        },
    }
}

/// The bytes of an optional text: 0, or 1 and the text.
pub open spec fn spec_option_text(value: Option<Seq<char>>) -> Seq<u8> {
    match value {
        None => seq![0u8],
        Some(text) => seq![1u8] + spec_text(text),
    }
}

/// Reads an optional text from the front of `s`.
pub open spec fn parse_option_text(s: Seq<u8>) -> Result<(Option<Seq<char>>, int), DecodeError> {
    match parse_u8(s) {
        Err(e) => Err(e),
        Ok((flag, used)) => if flag == 0 {
            Ok((None, used))
        } else if flag == 1 {
            match parse_text(s.skip(used)) {
                Err(e) => Err(e),
                Ok((text, more)) => Ok((Some(text), used + more)),
            }
        } else {
            Err(DecodeError::UnexpectedVariant)
        },
    }
}

/// The bytes of a request.
pub open spec fn spec_action(action: ActionView) -> Seq<u8> {
    match action {
        ActionView::Unlock => spec_varint(0),
        ActionView::Share(share) => spec_varint(1) + spec_text(share),
        ActionView::GenShares(num_shares, threshold) => spec_varint(2) + seq![
            num_shares,
            threshold,
        ],
        ActionView::Store(key, value) => spec_varint(3) + spec_text(key) + spec_text(value),
        ActionView::Read(key) => spec_varint(4) + spec_text(key),
        ActionView::GetThreshold => spec_varint(5),
    }
}

/// Reads a request from the front of `s`: the request and the number of
/// bytes it took.
pub open spec fn parse_action(s: Seq<u8>) -> Result<(ActionView, int), DecodeError> {
    match parse_variant(s) {
        Err(e) => Err(e),
        Ok((variant, used)) => {
            let fields = s.skip(used);
            if variant == 0 {
                Ok((ActionView::Unlock, used))
            } else if variant == 1 {
                match parse_text(fields) {
                    Err(e) => Err(e),
                    Ok((share, n)) => Ok((ActionView::Share(share), used + n)),
                }
            } else if variant == 2 {
                match parse_u8(fields) {
                    Err(e) => Err(e),
                    Ok((num_shares, n)) => match parse_u8(fields.skip(n)) {
                        Err(e) => Err(e),
                        Ok((threshold, m)) => Ok(
                            (ActionView::GenShares(num_shares, threshold), used + n + m),
                        ),
                    },
                }
            } else if variant == 3 {
                match parse_text(fields) {
                    Err(e) => Err(e),
                    Ok((key, n)) => match parse_text(fields.skip(n)) {
                        Err(e) => Err(e),
                        Ok((value, m)) => Ok((ActionView::Store(key, value), used + n + m)),
                    },
                }
            } else if variant == 4 {
                match parse_text(fields) {
                    Err(e) => Err(e),
                    Ok((key, n)) => Ok((ActionView::Read(key), used + n)),
                }
            } else if variant == 5 {
                Ok((ActionView::GetThreshold, used))
            } else {
                Err(DecodeError::UnexpectedVariant)
            }
        },
    }
}

/// The bytes of a response.
pub open spec fn spec_response(response: ResponseView) -> Seq<u8> {
    match response {
        ResponseView::Error(message) => spec_varint(0) + spec_text(message),
        ResponseView::Success => spec_varint(1),
        ResponseView::Shares(shares) => spec_varint(2) + spec_texts(shares),
        ResponseView::AlreadyInitialized => spec_varint(3),
        ResponseView::Threshold(threshold) => spec_varint(4) + seq![threshold],
        ResponseView::Value(value) => spec_varint(5) + spec_option_text(value),
        ResponseView::KeyNotFound => spec_varint(6),
    }
}

/// Reads a response from the front of `s`: the response and the number of
/// bytes it took.
pub open spec fn parse_response(s: Seq<u8>) -> Result<(ResponseView, int), DecodeError> {
    match parse_variant(s) {
        Err(e) => Err(e),
        Ok((variant, used)) => {
            let fields = s.skip(used);
            if variant == 0 {
                match parse_text(fields) {
                    Err(e) => Err(e),
                    Ok((message, n)) => Ok((ResponseView::Error(message), used + n)),
                }
            } else if variant == 1 {
                Ok((ResponseView::Success, used))
            } else if variant == 2 {
                match parse_texts(fields) {
                    Err(e) => Err(e),
                    Ok((shares, n)) => Ok((ResponseView::Shares(shares), used + n)),
                }
            } else if variant == 3 {
                Ok((ResponseView::AlreadyInitialized, used))
            } else if variant == 4 {
                match parse_u8(fields) {
                    Err(e) => Err(e),
                    Ok((threshold, n)) => Ok((ResponseView::Threshold(threshold), used + n)),
                }
            } else if variant == 5 {
                match parse_option_text(fields) {
                    Err(e) => Err(e),
                    Ok((value, n)) => Ok((ResponseView::Value(value), used + n)),
                }
            } else if variant == 6 {
                Ok((ResponseView::KeyNotFound, used))
            } else {
                Err(DecodeError::UnexpectedVariant)
            }
        },
    }
}

/// Every text of `texts` has UTF-8 bytes that a `usize` can count.
pub open spec fn texts_fit(texts: Seq<Seq<char>>) -> bool {
    forall|i: int| 0 <= i < texts.len() ==> text_fits(#[trigger] texts[i])
}

/// A request that an [`Action`] can hold: each text fits.
pub open spec fn action_fits(action: ActionView) -> bool {
    match action {
        ActionView::Share(share) => text_fits(share),
        ActionView::Store(key, value) => text_fits(key) && text_fits(value),
        ActionView::Read(key) => text_fits(key),
        _ => true,
    }
}

/// A response that a [`Response`] can hold: each text fits, and so does the
/// number of shares.
pub open spec fn response_fits(response: ResponseView) -> bool {
    match response {
        ResponseView::Error(message) => text_fits(message),
        ResponseView::Shares(shares) => shares.len() <= usize::MAX && texts_fit(shares),
        ResponseView::Value(Some(text)) => text_fits(text),
        _ => true,
    }
}

/// Writing one more text after others appends its bytes.
pub proof fn lemma_text_seq_push(texts: Seq<Seq<char>>, last: Seq<char>)
    ensures
        spec_text_seq(texts.push(last)) == spec_text_seq(texts) + spec_text(last),
    decreases texts.len(),
{
    let all = texts.push(last);
    if texts.len() == 0 {
        assert(all.skip(1) =~= Seq::<Seq<char>>::empty());
        assert(spec_text_seq(all.skip(1)) =~= Seq::<u8>::empty());
        assert(spec_text_seq(all) =~= spec_text(last));
        assert(spec_text_seq(texts) + spec_text(last) =~= spec_text(last));
    } else {
        lemma_text_seq_push(texts.skip(1), last);
        assert(all.skip(1) =~= texts.skip(1).push(last));
        assert(all[0] == texts[0]);
        assert(spec_text_seq(all) =~= spec_text_seq(texts) + spec_text(last));
    }
}

/// Reading as many texts as were written gives them back, whatever follows.
pub proof fn lemma_text_seq_roundtrip(texts: Seq<Seq<char>>, rest: Seq<u8>)
    requires
        texts_fit(texts),
    ensures
        parse_text_seq(spec_text_seq(texts) + rest, texts.len()) == Ok::<
            (Seq<Seq<char>>, int),
            DecodeError,
        >((texts, spec_text_seq(texts).len() as int)),
    decreases texts.len(),
{
    if texts.len() > 0 {
        let first = texts[0];
        let others = texts.skip(1);
        let tail = spec_text_seq(others) + rest;
        let s = spec_text_seq(texts) + rest;
        assert(s =~= spec_text(first) + tail);
        lemma_text_roundtrip(first, tail);
        let used = spec_text(first).len() as int;
        assert(s.skip(used) =~= tail);
        assert(texts_fit(others)) by {
            assert forall|i: int| 0 <= i < others.len() implies text_fits(
                #[trigger] others[i],
            ) by {
                assert(others[i] == texts[i + 1]);
            }
        }
        lemma_text_seq_roundtrip(others, rest);
        assert(seq![first] + others =~= texts);
    } else {
        assert(texts =~= Seq::<Seq<char>>::empty());
    }
}

/// Reading a list of texts gives back the list written, whatever follows it.
pub proof fn lemma_texts_roundtrip(texts: Seq<Seq<char>>, rest: Seq<u8>)
    requires
        texts.len() <= usize::MAX,
        texts_fit(texts),
    ensures
        parse_texts(spec_texts(texts) + rest) == Ok::<(Seq<Seq<char>>, int), DecodeError>(
            (texts, spec_texts(texts).len() as int),
        ),
{
    let count = texts.len() as u64;
    let tail = spec_text_seq(texts) + rest;
    let s = spec_texts(texts) + rest;
    assert(s =~= spec_varint(count) + tail);
    lemma_varint_roundtrip(count, tail);
    assert(s.skip(spec_varint(count).len() as int) =~= tail);
    lemma_text_seq_roundtrip(texts, rest);
}

/// Reading an optional text gives back what was written, whatever follows it.
pub proof fn lemma_option_text_roundtrip(value: Option<Seq<char>>, rest: Seq<u8>)
    requires
        value matches Some(text) ==> text_fits(text),
    ensures
        parse_option_text(spec_option_text(value) + rest) == Ok::<
            (Option<Seq<char>>, int),
            DecodeError,
        >((value, spec_option_text(value).len() as int)),
{
    let s = spec_option_text(value) + rest;
    match value {
        None => {
            assert(s[0] == 0u8);
        },
        Some(text) => {
            assert(s[0] == 1u8);
            assert(s.skip(1) =~= spec_text(text) + rest);
            lemma_text_roundtrip(text, rest);
        },
    }
}

/// Decoding the bytes of a request gives back the request, and takes exactly
/// those bytes, whatever follows them.
pub proof fn lemma_action_roundtrip(action: ActionView, rest: Seq<u8>)
    requires
        action_fits(action),
    ensures
        parse_action(spec_action(action) + rest) == Ok::<(ActionView, int), DecodeError>(
            (action, spec_action(action).len() as int),
        ),
{
    let s = spec_action(action) + rest;
    match action {
        ActionView::Unlock => {
            lemma_variant_roundtrip(0, rest);
        },
        ActionView::Share(share) => {
            let tail = spec_text(share) + rest;
            assert(s =~= spec_varint(1) + tail);
            lemma_variant_roundtrip(1, tail);
            assert(s.skip(1) =~= tail);
            lemma_text_roundtrip(share, rest);
        },
        ActionView::GenShares(num_shares, threshold) => {
            let tail = seq![num_shares, threshold] + rest;
            assert(s =~= spec_varint(2) + tail);
            lemma_variant_roundtrip(2, tail);
            assert(s.skip(1) =~= tail);
            assert(tail[0] == num_shares);
            assert(tail.skip(1)[0] == threshold);
        },
        ActionView::Store(key, value) => {
            let second = spec_text(value) + rest;
            let tail = spec_text(key) + second;
            assert(s =~= spec_varint(3) + tail);
            lemma_variant_roundtrip(3, tail);
            assert(s.skip(1) =~= tail);
            lemma_text_roundtrip(key, second);
            assert(tail.skip(spec_text(key).len() as int) =~= second);
            lemma_text_roundtrip(value, rest);
        },
        ActionView::Read(key) => {
            let tail = spec_text(key) + rest;
            assert(s =~= spec_varint(4) + tail);
            lemma_variant_roundtrip(4, tail);
            assert(s.skip(1) =~= tail);
            lemma_text_roundtrip(key, rest);
        },
        ActionView::GetThreshold => {
            lemma_variant_roundtrip(5, rest);
        },
    }
}

/// Decoding the bytes of a response gives back the response, and takes
/// exactly those bytes, whatever follows them.
pub proof fn lemma_response_roundtrip(response: ResponseView, rest: Seq<u8>)
    requires
        response_fits(response),
    ensures
        parse_response(spec_response(response) + rest) == Ok::<(ResponseView, int), DecodeError>(
            (response, spec_response(response).len() as int),
        ),
{
    let s = spec_response(response) + rest;
    match response {
        ResponseView::Error(message) => {
            let tail = spec_text(message) + rest;
            assert(s =~= spec_varint(0) + tail);
            lemma_variant_roundtrip(0, tail);
            assert(s.skip(1) =~= tail);
            lemma_text_roundtrip(message, rest);
        },
        ResponseView::Success => {
            lemma_variant_roundtrip(1, rest);
        },
        ResponseView::Shares(shares) => {
            let tail = spec_texts(shares) + rest;
            assert(s =~= spec_varint(2) + tail);
            lemma_variant_roundtrip(2, tail);
            assert(s.skip(1) =~= tail);
            lemma_texts_roundtrip(shares, rest);
        },
        ResponseView::AlreadyInitialized => {
            lemma_variant_roundtrip(3, rest);
        },
        ResponseView::Threshold(threshold) => {
            let tail = seq![threshold] + rest;
            assert(s =~= spec_varint(4) + tail);
            lemma_variant_roundtrip(4, tail);
            assert(s.skip(1) =~= tail);
            assert(tail[0] == threshold);
        },
        ResponseView::Value(value) => {
            let tail = spec_option_text(value) + rest;
            assert(s =~= spec_varint(5) + tail);
            lemma_variant_roundtrip(5, tail);
            assert(s.skip(1) =~= tail);
            lemma_option_text_roundtrip(value, rest);
        },
        ResponseView::KeyNotFound => {
            lemma_variant_roundtrip(6, rest);
        },
    }
}

/// Appends the texts of `texts` as a list.
pub fn encode_texts(texts: &[String], out: &mut Vec<u8>)
    ensures
        final(out)@ == old(out)@ + spec_texts(texts.deep_view()),
        texts.deep_view().len() <= usize::MAX,
        texts_fit(texts.deep_view()),
{
    let ghost all = texts.deep_view();
    let count: usize = texts.len();
    encode_varint(count as u64, out);
    let ghost start = out@;
    let mut i: usize = 0;
    while i < count
        invariant
            i <= count,
            count == texts@.len(),
            all == texts.deep_view(),
            out@ == start + spec_text_seq(all.take(i as int)),
            texts_fit(all.take(i as int)),
        decreases count - i,
    {
        let text: &str = texts[i].as_str();
        encode_text(text, out);
        proof {
            let before = all.take(i as int);
            assert(all.take(i + 1) =~= before.push(all[i as int]));
            lemma_text_seq_push(before, all[i as int]);
        }
        i = i + 1;
    }
    assert(all.take(count as int) =~= all);
    assert(out@ =~= old(out)@ + spec_texts(all));
}

/// Reads a list of texts at `pos`: the texts and the position behind them.
pub fn decode_texts(bytes: &[u8], pos: usize) -> (r: Result<(Vec<String>, usize), DecodeError>)
    ensures
        match parse_texts(rest_at(bytes@, pos)) {
            Ok((texts, used)) => r matches Ok((v, next)) && v.deep_view() == texts && next == pos
                + used && pos < next <= bytes@.len(),
            Err(e) => r matches Err(f) && f == e,
        },
{
    let ghost s = bytes@.skip(pos as int);
    let (count, start): (u64, usize) = match decode_varint(bytes, pos) {
        Ok(pair) => pair,
        Err(e) => {
            return Err(e);
        },
    };
    if count > usize::MAX as u64 {
        return Err(DecodeError::LengthOverflow);
    }
    let ghost body = s.skip(start - pos);
    let ghost whole = parse_text_seq(body, count as nat);
    let mut texts: Vec<String> = Vec::new();
    let mut at: usize = start;
    let mut i: u64 = 0;
    assert(bytes@.skip(at as int) =~= body);
    while i < count
        invariant
            i <= count,
            pos <= start <= at <= bytes@.len(),
            parse_texts(bytes@.skip(pos as int)) == match whole {
                Err(e) => Err::<(Seq<Seq<char>>, int), DecodeError>(e),
                Ok((all, more)) => Ok((all, start - pos + more)),
            },
            whole == match parse_text_seq(bytes@.skip(at as int), (count - i) as nat) {
                Err(e) => Err::<(Seq<Seq<char>>, int), DecodeError>(e),
                Ok((others, more)) => Ok((texts.deep_view() + others, at - start + more)),
            },
        decreases count - i,
    {
        let ghost here = bytes@.skip(at as int);
        match decode_text(bytes, at) {
            Err(e) => {
                return Err(e);
            },
            Ok((text, next)) => {
                proof {
                    let before = texts.deep_view();
                    assert(here.skip(next - at) =~= bytes@.skip(next as int));
                    let after = parse_text_seq(bytes@.skip(next as int), (count - i - 1) as nat);
                    match after {
                        Err(e) => {},
                        Ok((others, more)) => {
                            assert(before + (seq![text@] + others) =~= before.push(text@)
                                + others);
                        },
                    }
                }
                let ghost before = texts.deep_view();
                texts.push(text);
                assert(texts.deep_view() =~= before.push(text@));
                at = next;
                i = i + 1;
            },
        }
    }
    Ok((texts, at))
}

/// Appends an optional text.
pub fn encode_option_text(value: &Option<String>, out: &mut Vec<u8>)
    ensures
        final(out)@ == old(out)@ + spec_option_text(crate::message::option_text_view(*value)),
        value matches Some(text) ==> text_fits(text@),
{
    match value {
        None => {
            out.push(0);
        },
        Some(text) => {
            out.push(1);
            encode_text(text.as_str(), out);
        },
    }
}

/// Reads an optional text at `pos`: the value and the position behind it.
pub fn decode_option_text(bytes: &[u8], pos: usize) -> (r: Result<
    (Option<String>, usize),
    DecodeError,
>)
    ensures
        match parse_option_text(rest_at(bytes@, pos)) {
            Ok((value, used)) => r matches Ok((v, next)) && crate::message::option_text_view(v)
                == value && next == pos + used && pos < next <= bytes@.len(),
            Err(e) => r matches Err(f) && f == e,
        },
{
    let ghost s = bytes@.skip(pos as int);
    let (flag, at): (u8, usize) = match decode_u8(bytes, pos) {
        Ok(pair) => pair,
        Err(e) => {
            return Err(e);
        },
    };
    assert(s.skip(at - pos) =~= bytes@.skip(at as int));
    if flag == 0 {
        Ok((None, at))
    } else if flag == 1 {
        match decode_text(bytes, at) {
            Ok((text, next)) => Ok((Some(text), next)),
            Err(e) => Err(e),
        }
    } else {
        Err(DecodeError::UnexpectedVariant)
    }
}

/// The bytes of `action` on the wire.
pub fn encode_action(action: &Action) -> (bytes: Vec<u8>)
    ensures
        bytes@ == spec_action(action@),
        action_fits(action@),
{
    let mut out: Vec<u8> = Vec::new();
    match action {
        Action::Unlock => {
            encode_varint(0, &mut out);
        },
        Action::Share(share) => {
            encode_varint(1, &mut out);
            encode_text(share.share(), &mut out);
        },
        Action::GenShares(num_shares, threshold) => {
            encode_varint(2, &mut out);
            out.push(*num_shares);
            out.push(*threshold);
        },
        Action::Store(store) => {
            encode_varint(3, &mut out);
            encode_text(store.key(), &mut out);
            encode_text(store.value(), &mut out);
        },
        Action::Read(key) => {
            encode_varint(4, &mut out);
            encode_text(key.as_str(), &mut out);
        },
        Action::GetThreshold => {
            encode_varint(5, &mut out);
        },
    }
    out
}

/// Reads a request from the front of `bytes`: the request and the number of
/// bytes it took. Bytes behind the request are left unread.
pub fn decode_action(bytes: &[u8]) -> (r: Result<(Action, usize), DecodeError>)
    ensures
        match parse_action(bytes@) {
            Ok((action, used)) => r matches Ok((v, n)) && v@ == action && n == used && n
                <= bytes@.len(),
            Err(e) => r matches Err(f) && f == e,
        },
{
    assert(bytes@.skip(0) =~= bytes@);
    let (variant, at): (u64, usize) = match decode_variant(bytes, 0) {
        Ok(pair) => pair,
        Err(e) => {
            return Err(e);
        },
    };
    let ghost fields = bytes@.skip(at as int);
    if variant == 0 {
        Ok((Action::Unlock, at))
    } else if variant == 1 {
        match decode_text(bytes, at) {
            Ok((share, next)) => Ok((Action::Share(Share::new(share)), next)),
            Err(e) => Err(e),
        }
    } else if variant == 2 {
        let (num_shares, second): (u8, usize) = match decode_u8(bytes, at) {
            Ok(pair) => pair,
            Err(e) => {
                return Err(e);
            },
        };
        assert(fields.skip(second - at) =~= bytes@.skip(second as int));
        match decode_u8(bytes, second) {
            Ok((threshold, next)) => Ok((Action::GenShares(num_shares, threshold), next)),
            Err(e) => Err(e),
        }
    } else if variant == 3 {
        let (key, second): (String, usize) = match decode_text(bytes, at) {
            Ok(pair) => pair,
            Err(e) => {
                return Err(e);
            },
        };
        assert(fields.skip(second - at) =~= bytes@.skip(second as int));
        match decode_text(bytes, second) {
            Ok((value, next)) => Ok((Action::Store(Store::new(key, value)), next)),
            Err(e) => Err(e),
        }
    } else if variant == 4 {
        match decode_text(bytes, at) {
            Ok((key, next)) => Ok((Action::Read(key), next)),
            Err(e) => Err(e),
        }
    } else if variant == 5 {
        Ok((Action::GetThreshold, at))
    } else {
        Err(DecodeError::UnexpectedVariant)
    }
}

/// The bytes of `response` on the wire.
pub fn encode_response(response: &Response) -> (bytes: Vec<u8>)
    ensures
        bytes@ == spec_response(response@),
        response_fits(response@),
{
    let mut out: Vec<u8> = Vec::new();
    match response {
        Response::Error(message) => {
            encode_varint(0, &mut out);
            encode_text(message.as_str(), &mut out);
        },
        Response::Success => {
            encode_varint(1, &mut out);
        },
        Response::Shares(shares) => {
            encode_varint(2, &mut out);
            encode_texts(shares.shares(), &mut out);
        },
        Response::AlreadyInitialized => {
            encode_varint(3, &mut out);
        },
        Response::Threshold(threshold) => {
            encode_varint(4, &mut out);
            out.push(*threshold);
        },
        Response::Value(value) => {
            encode_varint(5, &mut out);
            encode_option_text(value, &mut out);
        },
        Response::KeyNotFound => {
            encode_varint(6, &mut out);
        },
    }
    out
}

/// Reads a response from the front of `bytes`: the response and the number
/// of bytes it took. Bytes behind the response are left unread.
pub fn decode_response(bytes: &[u8]) -> (r: Result<(Response, usize), DecodeError>)
    ensures
        match parse_response(bytes@) {
            Ok((response, used)) => r matches Ok((v, n)) && v@ == response && n == used && n
                <= bytes@.len(),
            Err(e) => r matches Err(f) && f == e,
        },
{
    assert(bytes@.skip(0) =~= bytes@);
    let (variant, at): (u64, usize) = match decode_variant(bytes, 0) {
        Ok(pair) => pair,
        Err(e) => {
            return Err(e);
        },
    };
    if variant == 0 {
        match decode_text(bytes, at) {
            Ok((message, next)) => Ok((Response::Error(message), next)),
            Err(e) => Err(e),
        }
    } else if variant == 1 {
        Ok((Response::Success, at))
    } else if variant == 2 {
        match decode_texts(bytes, at) {
            Ok((shares, next)) => Ok((Response::Shares(Shares::new(shares)), next)),
            Err(e) => Err(e),
        }
    } else if variant == 3 {
        Ok((Response::AlreadyInitialized, at))
    } else if variant == 4 {
        match decode_u8(bytes, at) {
            Ok((threshold, next)) => Ok((Response::Threshold(threshold), next)),
            Err(e) => Err(e),
        }
    } else if variant == 5 {
        match decode_option_text(bytes, at) {
            Ok((value, next)) => Ok((Response::Value(value), next)),
            Err(e) => Err(e),
        }
    } else if variant == 6 {
        Ok((Response::KeyNotFound, at))
    } else {
        Err(DecodeError::UnexpectedVariant)
    }
}

} // verus!
