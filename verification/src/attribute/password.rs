//! The PASSWORD-ALGORITHM attribute, and the attribute that lists such algorithms.
use crate::attribute::{
    declarable, encode_type_length, encode_variable_len, ensure_space, space_fault,
    spec_total_len, tlv, total_len, AsBytes, Attribute, DecodeAttribute, EncodeAttribute, Type,
    MAX_VALUE_LEN,
};
use crate::error::StunError;
use crate::header::TransactionId;
use crate::parse::attribute::{padding_of, tl_seq};
use crate::parse::RawAttribute;
use crate::wire::{
    be16, be16_seq, copy_at, copy_into, fill_zero, u16_be_bytes, u16_from_be, zeros,
};
use vstd::prelude::*;

verus! {

/// The codepoint of a password algorithm.
#[derive(Debug, Clone, Copy, PartialOrd, Ord, PartialEq, Eq, Hash, Structural)]
pub struct Algorithm(pub u16);

impl Algorithm {
    /// The number of bytes a codepoint takes on the wire.
    pub const LEN: usize = 2;

    pub const MD5: u16 = 0x0001;

    pub const SHA256: u16 = 0x0002;

    pub fn new(codepoint: u16) -> (a: Self)
        ensures
            a == Algorithm(codepoint),
    {
        Self(codepoint)
    }

    pub fn codepoint(self) -> (c: u16)
        ensures
            c == self.0,
    {
        self.0
    }
}

/// The bytes before the parameters: the algorithm and the length of the
/// parameters.
pub const HEADER_LEN: usize = 4;

/// A password algorithm with its parameters, in whatever holds them.
#[derive(Debug, Clone, Eq, PartialEq, Hash)]
pub struct PasswordAlgorithm<T> {
    pub algorithm: Algorithm,
    pub parameters: T,
}

/// A password algorithm as plain values.
pub struct AlgorithmView {
    pub algorithm: Algorithm,
    pub parameters: Seq<u8>,
}

impl<T: AsBytes> View for PasswordAlgorithm<T> {
    type V = AlgorithmView;

    open spec fn view(&self) -> AlgorithmView {
        AlgorithmView { algorithm: self.algorithm, parameters: self.parameters.bytes() }
    }
}

impl<T> PasswordAlgorithm<T> {
    /// The type of this attribute.
    pub const TYPE: u16 = 0x001D;

    pub fn new(algorithm: Algorithm, parameters: T) -> (a: Self)
        ensures
            a.algorithm == algorithm,
            a.parameters == parameters,
    {
        Self { algorithm, parameters }
    }

    pub fn into_inner(self) -> (t: T)
        ensures
            t == self.parameters,
    {
        self.parameters
    }

    pub fn algorithm(&self) -> (a: Algorithm)
        ensures
            a == self.algorithm,
    {
        self.algorithm
    }
}

impl<T: AsBytes> PasswordAlgorithm<T> {
    pub fn parameters(&self) -> (b: &[u8])
        ensures
            b@ == self@.parameters,
    {
        self.parameters.as_bytes()
    }
}

/// The value of a password algorithm attribute: the algorithm, the length of the
/// parameters, and the parameters.
pub open spec fn algorithm_value(a: AlgorithmView) -> Seq<u8> {
    be16_seq(a.algorithm.0) + be16_seq(a.parameters.len() as u16) + a.parameters
}

/// The error that encoding a password algorithm into `avail` bytes gives: the
/// parameters must leave room for the four bytes before them, then comes the space.
pub open spec fn algorithm_fault(a: AlgorithmView, avail: nat) -> Option<StunError> {
    if a.parameters.len() > MAX_VALUE_LEN - HEADER_LEN {
        Some(StunError::ParamsTooLong)
    } else {
        space_fault(
            spec_total_len(4 + a.parameters.len() as int),
            (4 + a.parameters.len()) as u16,
            avail as int,
        )
    }
}

/// What decoding the value of a password algorithm attribute gives.
pub open spec fn decoded_algorithm(src: Seq<u8>) -> Result<AlgorithmView, StunError> {
    if src.len() < 4 {
        Err(StunError::PasswordAlgorithmTooBig)
    } else if be16(src[2], src[3]) != src.len() - 4 {
        Err(
            StunError::PasswordLenMismatch {
                expected: be16(src[2], src[3]),
                actual: if src.len() - 4 > 0xFFFF {
                    0xFFFFu16
                } else {
                    (src.len() - 4) as u16
                },
            },
        )
    } else {
        Ok(AlgorithmView { algorithm: Algorithm(be16(src[0], src[1])), parameters: src.skip(4) })
    }
}

impl<T: AsBytes> Attribute for PasswordAlgorithm<T> {
    open spec fn spec_type(&self) -> Type {
        Type(Type::PASSWORD_ALGORITHM)
    }

    fn attribute_type(&self) -> (t: Type) {
        Type(Type::PASSWORD_ALGORITHM)
    }
}

impl<T: AsBytes> EncodeAttribute for PasswordAlgorithm<T> {
    open spec fn wire_value(&self, transaction_id: TransactionId) -> Seq<u8> {
        declarable(algorithm_value(self@))
    }

    open spec fn fault(&self, avail: nat) -> Option<StunError> {
        algorithm_fault(self@, avail)
    }

    fn encoded_value_len(&self) -> (len: u16) {
        ((self.parameters().len() % 0x1_0000 + HEADER_LEN) % 0x1_0000) as u16
    }

    fn encode<'a>(&self, dst: &'a mut [u8], transaction_id: &TransactionId) -> (r: Result<
        &'a mut [u8],
        StunError,
    >) {
        let parameters = self.parameters();
        if parameters.len() > MAX_VALUE_LEN - HEADER_LEN {
            return Err(StunError::ParamsTooLong);
        }
        let param_len = parameters.len() as u16;
        let len = HEADER_LEN as u16 + param_len;
        let total_len = total_len(len);
        match ensure_space(total_len, len, dst.len()) {
            Ok(()) => {},
            Err(e) => {
                return Err(e);
            },
        }
        let (attr, rest) = dst.split_at_mut(total_len);
        let vp = encode_type_length(Type(Type::PASSWORD_ALGORITHM), len, attr);
        let (header, params_pad) = vp.split_at_mut(HEADER_LEN);
        let alg = u16_be_bytes(self.algorithm.0);
        let pl = u16_be_bytes(param_len);
        let bytes: [u8; 4] = [alg[0], alg[1], pl[0], pl[1]];
        assert(bytes@ =~= be16_seq(self.algorithm.0) + be16_seq(param_len));
        copy_into(header, &bytes);
        let (parameters_buf, pad) = params_pad.split_at_mut(parameters.len());
        copy_into(parameters_buf, parameters);
        fill_zero(pad);
        proof {
            let value = algorithm_value(self@);
            assert(declarable(value) =~= value);
            assert(tlv(Type(Type::PASSWORD_ALGORITHM), value) =~= tl_seq(
                Type(Type::PASSWORD_ALGORITHM),
                len,
            ) + (bytes@ + (parameters@ + zeros(padding_of(len as int) as nat))));
        }
        Ok(rest)
    }
}

impl<'d> DecodeAttribute<'d> for PasswordAlgorithm<&'d [u8]> {
    open spec fn decoded(attr: Type, src: Seq<u8>, transaction_id: TransactionId, r: Result<
        Self,
        StunError,
    >) -> bool {
        match r {
            Ok(a) => decoded_algorithm(src) == Ok::<AlgorithmView, StunError>(a@),
            Err(e) => decoded_algorithm(src) == Err::<AlgorithmView, StunError>(e),
        }
    }

    fn decode(attr: Type, src: &'d [u8], transaction_id: &TransactionId) -> (r: Result<
        Self,
        StunError,
    >) {
        if src.len() < HEADER_LEN {
            return Err(StunError::PasswordAlgorithmTooBig);
        }
        let algorithm = Algorithm::new(u16_from_be(src[0], src[1]));
        let len = u16_from_be(src[2], src[3]);
        let (_, parameters) = src.split_at(HEADER_LEN);
        assert(parameters@ == src@.skip(4));
        if len as usize != parameters.len() {
            let at_least: u16 = if parameters.len() > 0xFFFF {
                0xFFFF
            } else {
                parameters.len() as u16
            };
            return Err(StunError::PasswordLenMismatch { expected: len, actual: at_least });
        }
        Ok(Self::new(algorithm, parameters))
    }
}

/// The first algorithm of a list and the bytes after it: `Ok(None)` where the list
/// is empty, `Err(false)` where fewer than four bytes are there, `Err(true)` where
/// the parameters are declared longer than what follows. The padding after the
/// last algorithm may be missing.
pub open spec fn first_algorithm(bytes: Seq<u8>) -> Result<Option<(AlgorithmView, Seq<u8>)>, bool> {
    if bytes.len() == 0 {
        Ok(None)
    } else if bytes.len() < 4 {
        Err(false)
    } else {
        let len = be16(bytes[2], bytes[3]);
        let body = bytes.skip(4);
        if len > body.len() {
            Err(true)
        } else {
            Ok(
                Some(
                    (
                        AlgorithmView {
                            algorithm: Algorithm(be16(bytes[0], bytes[1])),
                            parameters: body.take(len as int),
                        },
                        if len + padding_of(len as int) <= body.len() {
                            body.skip(len + padding_of(len as int))
                        } else {
                            Seq::empty()
                        },
                    ),
                ),
            )
        }
    }
}

/// The algorithms that the bytes list, or the fault in the list.
pub open spec fn algorithms(bytes: Seq<u8>) -> Result<Seq<AlgorithmView>, StunError>
    decreases bytes.len(),
{
    match first_algorithm(bytes) {
        Ok(None) => Ok(Seq::empty()),
        Err(false) => Err(StunError::PassAlgoBadHeader),
        Err(true) => Err(StunError::PassAlgoBadLen),
        Ok(Some((first, rest))) => match algorithms(rest) {
            Ok(more) => Ok(seq![first] + more),
            Err(e) => Err(e),
        },
    }
}

/// Takes the first algorithm from a list, and gives the list after it.
pub fn next_alg<'a>(bytes: &'a [u8]) -> (r: Result<
    Option<(PasswordAlgorithm<&'a [u8]>, &'a [u8])>,
    bool,
>)
    ensures
        match r {
            Ok(Some((first, rest))) => first_algorithm(bytes@) == Ok::<
                Option<(AlgorithmView, Seq<u8>)>,
                bool,
            >(Some((first@, rest@))),
            Ok(None) => first_algorithm(bytes@) == Ok::<Option<(AlgorithmView, Seq<u8>)>, bool>(
                None,
            ),
            Err(b) => first_algorithm(bytes@) == Err::<Option<(AlgorithmView, Seq<u8>)>, bool>(b),
        },
{
    if bytes.len() == 0 {
        return Ok(None);
    }
    if bytes.len() < HEADER_LEN {
        return Err(false);
    }
    let algorithm = Algorithm::new(u16_from_be(bytes[0], bytes[1]));
    let len = u16_from_be(bytes[2], bytes[3]);
    let padding = RawAttribute::padding(len) as usize;
    let len = len as usize;
    let (_, body) = bytes.split_at(HEADER_LEN);
    assert(body@ == bytes@.skip(4));
    if len > body.len() {
        return Err(true);
    }
    let (parameters, _) = body.split_at(len);
    assert(parameters@ == body@.take(len as int));
    let rest: &'a [u8] = if len + padding <= body.len() {
        let (_, rest) = body.split_at(len + padding);
        assert(rest@ == body@.skip(len + padding));
        rest
    } else {
        let (rest, _) = body.split_at(0);
        assert(rest@ =~= Seq::<u8>::empty());
        rest
    };
    Ok(Some((PasswordAlgorithm::new(algorithm, parameters), rest)))
}

/// The PASSWORD-ALGORITHMS attribute: the algorithms that a server takes.
#[derive(Debug, Clone, Eq, PartialEq, Hash)]
pub struct PasswordAlgorithms<T>(pub T);

impl<T> PasswordAlgorithms<T> {
    /// The type of this attribute.
    pub const TYPE: u16 = 0x8002;

    pub fn new(inner: T) -> (a: Self)
        ensures
            a.0 == inner,
    {
        Self(inner)
    }

    pub fn into_inner(self) -> (inner: T)
        ensures
            inner == self.0,
    {
        self.0
    }
}

/// A list of algorithms as it stands in a message, without a fault.
#[derive(Debug, Clone, Copy, Eq, PartialEq, Hash)]
pub struct Parsed<'a> {
    bytes: &'a [u8],
}

impl<'a> View for Parsed<'a> {
    type V = Seq<u8>;

    closed spec fn view(&self) -> Seq<u8> {
        self.bytes@
    }
}

impl<'a> Parsed<'a> {
    #[verifier::type_invariant]
    spec fn listed(self) -> bool {
        algorithms(self.bytes@) is Ok
    }
}

/// What walks through a list of algorithms.
#[derive(Clone, Copy)]
pub struct PasswordAlgorithmIter<'a> {
    rest: &'a [u8],
}

impl<'a> PasswordAlgorithmIter<'a> {
    /// The bytes that have not been walked through.
    pub closed spec fn remaining(&self) -> Seq<u8> {
        self.rest@
    }

    /// The next algorithm, or `None` where the list has ended or cannot be read
    /// any farther.
    pub fn next(&mut self) -> (r: Option<PasswordAlgorithm<&'a [u8]>>)
        ensures
            match first_algorithm(old(self).remaining()) {
                Ok(Some((first, rest))) => r matches Some(a) && a@ == first
                    && final(self).remaining() == rest,
                _ => r is None,
            },
    {
        match next_alg(self.rest) {
            Ok(Some((first, rest))) => {
                self.rest = rest;
                Some(first)
            },
            _ => None,
        }
    }
}

impl<'a> PasswordAlgorithms<Parsed<'a>> {
    pub fn as_bytes(&self) -> (b: &'a [u8])
        ensures
            b@ == self.0@,
            algorithms(b@) is Ok,
    {
        proof {
            use_type_invariant(&self.0);
        }
        self.0.bytes
    }

    /// A walk through the algorithms.
    pub fn iter(&self) -> (it: PasswordAlgorithmIter<'a>)
        ensures
            it.remaining() == self.0@,
    {
        PasswordAlgorithmIter { rest: self.0.bytes }
    }

    /// The algorithms, first to last.
    pub fn to_vec(&self) -> (list: Vec<PasswordAlgorithm<&'a [u8]>>)
        ensures
            algorithms(self.0@) matches Ok(all) && all.len() == list@.len() && forall|i: int|
                0 <= i < all.len() ==> (#[trigger] list@[i])@ == all[i],
    {
        let bytes = self.as_bytes();
        let mut rest = bytes;
        let mut list: Vec<PasswordAlgorithm<&'a [u8]>> = Vec::new();
        let ghost all = algorithms(bytes@)->Ok_0;
        assert(all.skip(0) =~= all);
        loop
            invariant
                algorithms(bytes@) == Ok::<Seq<AlgorithmView>, StunError>(all),
                list@.len() <= all.len(),
                algorithms(rest@) == Ok::<Seq<AlgorithmView>, StunError>(
                    all.skip(list@.len() as int),
                ),
                forall|i: int| 0 <= i < list@.len() ==> (#[trigger] list@[i])@ == all[i],
            ensures
                list@.len() == all.len(),
                forall|i: int| 0 <= i < list@.len() ==> (#[trigger] list@[i])@ == all[i],
            decreases rest@.len(),
        {
            match next_alg(rest) {
                Ok(Some((first, after))) => {
                    proof {
                        let tail = all.skip(list@.len() as int);
                        let more = algorithms(after@)->Ok_0;
                        assert(tail == seq![first@] + more);
                        assert(tail.len() > 0);
                        assert(tail[0] == first@);
                        assert(tail.skip(1) =~= more);
                        assert(all.skip(list@.len() as int + 1) =~= tail.skip(1));
                    }
                    list.push(first);
                    rest = after;
                },
                _ => {
                    assert(all.skip(list@.len() as int).len() == 0);
                    break ;
                },
            }
        }
        list
    }
}

impl<'a> Attribute for PasswordAlgorithms<Parsed<'a>> {
    open spec fn spec_type(&self) -> Type {
        Type(Type::PASSWORD_ALGORITHMS)
    }

    fn attribute_type(&self) -> (t: Type) {
        Type(Type::PASSWORD_ALGORITHMS)
    }
}

impl<'b> EncodeAttribute for PasswordAlgorithms<Parsed<'b>> {
    open spec fn wire_value(&self, transaction_id: TransactionId) -> Seq<u8> {
        declarable(self.0@)
    }

    open spec fn fault(&self, avail: nat) -> Option<StunError> {
        space_fault(
            spec_total_len(declarable(self.0@).len() as int),
            declarable(self.0@).len() as u16,
            avail as int,
        )
    }

    fn encoded_value_len(&self) -> (len: u16) {
        (self.as_bytes().len() % 0x1_0000) as u16
    }

    fn encode<'a>(&self, dst: &'a mut [u8], transaction_id: &TransactionId) -> (r: Result<
        &'a mut [u8],
        StunError,
    >) {
        encode_variable_len(Type(Type::PASSWORD_ALGORITHMS), self.as_bytes(), dst)
    }
}

impl<'d> DecodeAttribute<'d> for PasswordAlgorithms<Parsed<'d>> {
    open spec fn decoded(attr: Type, src: Seq<u8>, transaction_id: TransactionId, r: Result<
        Self,
        StunError,
    >) -> bool {
        match r {
            Ok(a) => algorithms(src) is Ok && a.0@ == src,
            Err(e) => algorithms(src) == Err::<Seq<AlgorithmView>, StunError>(e),
        }
    }

    fn decode(attr: Type, src: &'d [u8], transaction_id: &TransactionId) -> (r: Result<
        Self,
        StunError,
    >) {
        let mut rest = src;
        loop
            invariant
                algorithms(src@) is Ok <==> algorithms(rest@) is Ok,
                algorithms(src@) is Err ==> algorithms(src@) == algorithms(rest@),
            decreases rest@.len(),
        {
            match next_alg(rest) {
                Ok(Some((_, after))) => {
                    rest = after;
                },
                Ok(None) => {
                    return Ok(Self::new(Parsed { bytes: src }));
                },
                Err(false) => {
                    return Err(StunError::PassAlgoBadHeader);
                },
                Err(true) => {
                    return Err(StunError::PassAlgoBadLen);
                },
            }
        }
    }
}

/// One algorithm of a list: the algorithm, the length of the parameters, the
/// parameters, and zeros up to a multiple of 4.
pub open spec fn padded_entry(a: AlgorithmView) -> Seq<u8> {
    algorithm_value(a) + zeros(padding_of(a.parameters.len() as int) as nat)
}

/// The algorithms of a list one after another, each with its padding.
pub open spec fn padded_list(list: Seq<AlgorithmView>) -> Seq<u8>
    decreases list.len(),
{
    if list.len() == 0 {
        Seq::empty()
    } else {
        padded_list(list.drop_last()) + padded_entry(list.last())
    }
}

/// The length of the value of a list: that of its algorithms one after another,
/// without the padding of the last.
pub open spec fn list_len(list: Seq<AlgorithmView>) -> int {
    if list.len() == 0 {
        0
    } else {
        padded_list(list).len() - padding_of(list.last().parameters.len() as int)
    }
}

/// The value of a list of algorithms.
pub open spec fn list_value(list: Seq<AlgorithmView>) -> Seq<u8> {
    padded_list(list).take(list_len(list))
}

/// The fault in a list of algorithms, `None` where it has none: the first
/// algorithm whose parameters are too long, or with which the value gets over the
/// longest value.
pub open spec fn list_check(list: Seq<AlgorithmView>) -> Option<StunError>
    decreases list.len(),
{
    if list.len() == 0 {
        None
    } else if list_check(list.drop_last()) is Some {
        list_check(list.drop_last())
    } else if list.last().parameters.len() > MAX_VALUE_LEN - HEADER_LEN {
        Some(StunError::ParamsTooLong)
    } else if list_len(list) > MAX_VALUE_LEN {
        Some(StunError::ValueTooLong { len: list_len(list) as usize })
    } else {
        None
    }
}

/// The error that encoding a list of algorithms into `avail` bytes gives: the
/// fault in the list, if any, then the space.
pub open spec fn list_fault(list: Seq<AlgorithmView>, avail: nat) -> Option<StunError> {
    if list_check(list) is Some {
        list_check(list)
    } else {
        space_fault(spec_total_len(list_len(list)), list_len(list) as u16, avail as int)
    }
}

/// The algorithms of a slice as plain values.
pub open spec fn views<T: AsBytes>(list: Seq<PasswordAlgorithm<T>>) -> Seq<AlgorithmView> {
    Seq::new(list.len(), |i: int| list[i]@)
}

/// Padding does not change with a multiple of 4 before the value.
proof fn lemma_padding_shift(before: int, n: int)
    requires
        before >= 0,
        before % 4 == 0,
        n >= 0,
    ensures
        padding_of(before + n) == padding_of(n),
        (n + padding_of(n)) % 4 == 0,
        (before + n + padding_of(n)) % 4 == 0,
        0 <= padding_of(n) < 4,
{
}

/// A list is a multiple of 4 bytes long with its padding, and as long as its value
/// with the padding of the value.
pub proof fn lemma_padded_list_len(list: Seq<AlgorithmView>)
    ensures
        padded_list(list).len() % 4 == 0,
        padded_list(list).len() == list_len(list) + padding_of(list_len(list)),
        list.len() > 0 ==> padded_list(list).len() == padded_list(list.drop_last()).len() + 4
            + list.last().parameters.len() + padding_of(list.last().parameters.len() as int),
        0 <= list_len(list) <= padded_list(list).len(),
    decreases list.len(),
{
    if list.len() > 0 {
        lemma_padded_list_len(list.drop_last());
        let last = list.last();
        let n = last.parameters.len() as int;
        let before = padded_list(list.drop_last()).len() as int;
        assert(algorithm_value(last).len() == 4 + n);
        assert(padded_entry(last).len() == 4 + n + padding_of(n)) by {
            lemma_padding_shift(0, n);
        }
        assert(padded_list(list).len() == before + 4 + n + padding_of(n));
        lemma_padding_shift(before + 4, n);
        assert(list_len(list) == before + 4 + n);
    }
}

/// The fault in the start of a list is the fault in the list; a list without a
/// fault is not over the longest value.
pub proof fn lemma_list_check(list: Seq<AlgorithmView>, k: int)
    requires
        0 <= k <= list.len(),
    ensures
        list_check(list.take(k)) is Some ==> list_check(list) == list_check(list.take(k)),
        list_check(list) is None ==> list_len(list) <= MAX_VALUE_LEN,
    decreases list.len() - k,
{
    lemma_padded_list_len(list);
    if k < list.len() {
        lemma_list_check(list, k + 1);
        assert(list.take(k + 1).drop_last() =~= list.take(k));
    } else {
        assert(list.take(k) =~= list);
    }
}

/// The length of the value of a list of algorithms, or the fault in the list.
pub fn value_len<T: AsBytes>(list: &[PasswordAlgorithm<T>]) -> (r: Result<u16, StunError>)
    ensures
        match r {
            Ok(len) => list_check(views(list@)) is None && len == list_len(views(list@)),
            Err(e) => list_check(views(list@)) == Some(e),
        },
{
    let ghost all = views(list@);
    let mut padded: usize = 0;
    let mut last_pad: usize = 0;
    let mut i: usize = 0;
    proof {
        assert(all.take(0) =~= Seq::<AlgorithmView>::empty());
    }
    while i < list.len()
        invariant
            i <= list@.len(),
            all == views(list@),
            list_check(all.take(i as int)) is None,
            padded == padded_list(all.take(i as int)).len(),
            padded - last_pad == list_len(all.take(i as int)),
            padded - last_pad <= MAX_VALUE_LEN,
            last_pad <= 3,
        decreases list@.len() - i,
    {
        let n = list[i].parameters().len();
        assert(all[i as int] == list@[i as int]@);
        proof {
            assert(all.take(i as int + 1).drop_last() =~= all.take(i as int));
            assert(all.take(i as int + 1).last() == all[i as int]);
            lemma_padded_list_len(all.take(i as int + 1));
            lemma_padded_list_len(all.take(i as int));
            lemma_list_check(all, i as int + 1);
        }
        if n > MAX_VALUE_LEN - HEADER_LEN {
            return Err(StunError::ParamsTooLong);
        }
        let pad = RawAttribute::padding(n as u16) as usize;
        if padded + HEADER_LEN + n > MAX_VALUE_LEN {
            return Err(StunError::ValueTooLong { len: padded + HEADER_LEN + n });
        }
        padded = padded + HEADER_LEN + n + pad;
        last_pad = pad;
        i += 1;
    }
    proof {
        assert(all.take(list@.len() as int) =~= all);
    }
    Ok((padded - last_pad) as u16)
}

impl<'l, T: AsBytes> Attribute for PasswordAlgorithms<&'l [PasswordAlgorithm<T>]> {
    open spec fn spec_type(&self) -> Type {
        Type(Type::PASSWORD_ALGORITHMS)
    }

    fn attribute_type(&self) -> (t: Type) {
        Type(Type::PASSWORD_ALGORITHMS)
    }
}

/// A list with its padding is its value with the padding of the value.
pub proof fn lemma_padded_list_value(list: Seq<AlgorithmView>)
    ensures
        padded_list(list) == list_value(list) + zeros(padding_of(list_len(list)) as nat),
{
    lemma_padded_list_len(list);
    if list.len() > 0 {
        let last = list.last();
        let before = padded_list(list.drop_last());
        assert(padded_list(list) == before + padded_entry(last));
        assert(algorithm_value(last).len() == 4 + last.parameters.len());
        lemma_padded_list_len(list.drop_last());
        assert(padding_of(list_len(list)) == padding_of(last.parameters.len() as int));
    }
    assert(padded_list(list) =~= list_value(list) + zeros(padding_of(list_len(list)) as nat));
}

impl<'l, T: AsBytes> EncodeAttribute for PasswordAlgorithms<&'l [PasswordAlgorithm<T>]> {
    open spec fn wire_value(&self, transaction_id: TransactionId) -> Seq<u8> {
        if list_check(views(self.0@)) is None {
            list_value(views(self.0@))
        } else {
            Seq::empty()
        }
    }

    open spec fn fault(&self, avail: nat) -> Option<StunError> {
        list_fault(views(self.0@), avail)
    }

    fn encoded_value_len(&self) -> (len: u16) {
        proof {
            lemma_padded_list_len(views(self.0@));
        }
        match value_len(self.0) {
            Ok(len) => len,
            Err(_) => 0,
        }
    }

    fn encode<'a>(&self, dst: &'a mut [u8], transaction_id: &TransactionId) -> (r: Result<
        &'a mut [u8],
        StunError,
    >) {
        let list = self.0;
        let ghost all = views(list@);
        let len = match value_len(list) {
            Ok(len) => len,
            Err(e) => {
                return Err(e);
            },
        };
        let total_len = total_len(len);
        match ensure_space(total_len, len, dst.len()) {
            Ok(()) => {},
            Err(e) => {
                return Err(e);
            },
        }
        let (tlvp, rest) = dst.split_at_mut(total_len);
        let v = encode_type_length(Type(Type::PASSWORD_ALGORITHMS), len, tlvp);
        fill_zero(v);
        let mut at: usize = 0;
        let mut i: usize = 0;
        proof {
            lemma_padded_list_len(all);
            assert(all.take(0) =~= Seq::<AlgorithmView>::empty());
            assert(v@.take(0) =~= Seq::<u8>::empty());
        }
        while i < list.len()
            invariant
                i <= list@.len(),
                all == views(list@),
                list_check(all) is None,
                v@.len() == padded_list(all).len(),
                v@.len() <= MAX_VALUE_LEN + 3,
                at == padded_list(all.take(i as int)).len(),
                at <= v@.len(),
                v@.take(at as int) == padded_list(all.take(i as int)),
                forall|j: int| at <= j < v@.len() ==> v@[j] == 0,
            decreases list@.len() - i,
        {
            let parameters = list[i].parameters();
            let n = parameters.len();
            assert(all[i as int] == list@[i as int]@);
            proof {
                assert(all.take(i as int + 1).drop_last() =~= all.take(i as int));
                assert(all.take(i as int + 1).last() == all[i as int]);
                lemma_padded_list_len(all.take(i as int + 1));
                lemma_list_len_grows(all, i as int + 1);
            }
            let alg = u16_be_bytes(list[i].algorithm.0);
            let pl = u16_be_bytes(n as u16);
            let header: [u8; 4] = [alg[0], alg[1], pl[0], pl[1]];
            assert(header@ =~= be16_seq(list@[i as int].algorithm.0) + be16_seq(n as u16));
            let ghost before = v@;
            copy_at(v, at, &header);
            copy_at(v, at + HEADER_LEN, parameters);
            let pad = RawAttribute::padding(n as u16) as usize;
            proof {
                let next = at + 4 + n + pad;
                assert(v@.take(next as int) =~= before.take(at as int) + padded_entry(
                    all[i as int],
                ));
            }
            at = at + HEADER_LEN + n + pad;
            i += 1;
        }
        proof {
            assert(all.take(list@.len() as int) =~= all);
            assert(v@.take(v@.len() as int) =~= v@);
            lemma_padded_list_value(all);
            assert(tlv(Type(Type::PASSWORD_ALGORITHMS), list_value(all)) =~= tl_seq(
                Type(Type::PASSWORD_ALGORITHMS),
                len,
            ) + (list_value(all) + zeros(padding_of(len as int) as nat)));
        }
        Ok(rest)
    }
}

/// The padded start of a list is no longer than the padded list.
pub proof fn lemma_list_len_grows(list: Seq<AlgorithmView>, k: int)
    requires
        0 <= k <= list.len(),
    ensures
        padded_list(list.take(k)).len() <= padded_list(list).len(),
    decreases list.len() - k,
{
    if k < list.len() {
        lemma_list_len_grows(list, k + 1);
        assert(list.take(k + 1).drop_last() =~= list.take(k));
        lemma_padded_list_len(list.take(k + 1));
    } else {
        assert(list.take(k) =~= list);
    }
}

} // verus!
