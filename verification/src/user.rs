//! The structures and calls that the two sides share.
//!
//! Each structure is declared once. Both sides write and read it field by
//! field, in the order of the declaration, so a value that one side wrote is
//! the value that the other reads.

use crate::wire::{
    lemma_read_block_of_block, lemma_read_flag_of_flag, lemma_read_length_of_length,
    lemma_read_text_of_text, read_block, read_byte, read_flag, read_length, read_text,
    spec_block, spec_decoded_as, spec_flag, spec_length, spec_read_as, spec_read_block,
    spec_read_byte, spec_read_flag, spec_read_length, spec_read_text, spec_text, spec_whole,
    whole, write_block, write_flag, write_length, write_text, DecodeError,
};
use vstd::prelude::*;
use vstd::string::*;
use vstd::utf8::*;

verus! {

/// A user: a name and an age.
#[derive(Clone, Debug, PartialEq, Eq)]
pub struct DemoUser {
    pub name: String,
    pub age: u8,
}

/// A request that holds users and a block of bytes.
#[derive(Clone, Debug, PartialEq, Eq)]
pub struct DemoComplicatedRequest {
    pub users: Vec<DemoUser>,
    pub balabala: Vec<u8>,
}

/// The answer to a request.
#[derive(Clone, Copy, Debug, PartialEq, Eq, Structural)]
pub struct DemoResponse {
    pub pass: bool,
}

/// The calls that one side makes and the other answers.
///
/// `demo_oneway` is made without waiting for it to end. `demo_check` is
/// waited for. The answers of `demo_check_async` and `demo_check_async_safe`
/// are deferred; the second takes its request by value, and its answer stays
/// valid where nobody is left to take it.
pub trait DemoCall {
    fn demo_oneway(req: &DemoUser);

    fn demo_check(req: &DemoComplicatedRequest) -> DemoResponse;

    fn demo_check_async(req: &DemoComplicatedRequest) -> DemoResponse;

    fn demo_check_async_safe(req: DemoComplicatedRequest) -> DemoResponse;
}

/// A [`DemoUser`] as plain values.
pub ghost struct DemoUserView {
    pub name: Seq<char>,
    pub age: u8,
}

/// A [`DemoComplicatedRequest`] as plain values.
pub ghost struct DemoComplicatedRequestView {
    pub users: Seq<DemoUserView>,
    pub balabala: Seq<u8>,
}

impl View for DemoUser {
    type V = DemoUserView;

    open spec fn view(&self) -> DemoUserView {
        DemoUserView { name: self.name@, age: self.age }
    }
}

/// The users of a vector as plain values, in order.
pub open spec fn spec_user_views(users: Seq<DemoUser>) -> Seq<DemoUserView> {
    Seq::new(users.len(), |i: int| users[i]@)
}

impl View for DemoComplicatedRequest {
    type V = DemoComplicatedRequestView;

    open spec fn view(&self) -> DemoComplicatedRequestView {
        DemoComplicatedRequestView {
            users: spec_user_views(self.users@),
            balabala: self.balabala@,
        }
    }
}

impl View for DemoResponse {
    type V = DemoResponse;

    open spec fn view(&self) -> DemoResponse {
        *self
    }
}

impl DemoUserView {
    /// Whether the length of the name can be written. It can for every
    /// [`DemoUser`].
    pub open spec fn spec_fits(self) -> bool {
        encode_utf8(self.name).len() <= u64::MAX
    }
}

impl DemoComplicatedRequestView {
    /// Whether every count and length in the request can be written. They
    /// can for every [`DemoComplicatedRequest`].
    pub open spec fn spec_fits(self) -> bool {
        &&& self.users.len() <= u64::MAX
        &&& self.balabala.len() <= u64::MAX
        &&& forall|i: int| 0 <= i < self.users.len() ==> (#[trigger] self.users[i]).spec_fits()
    }
}

/// A user as bytes: the name, then the age.
pub open spec fn spec_encode_user(user: DemoUserView) -> Seq<u8> {
    spec_text(user.name) + seq![user.age]
}

/// Users as bytes, one after the other.
pub open spec fn spec_encode_users(users: Seq<DemoUserView>) -> Seq<u8>
    decreases users.len(),
{
    if users.len() == 0 {
        Seq::empty()
    } else {
        spec_encode_users(users.drop_last()) + spec_encode_user(users.last())
    }
}

/// A request as bytes: the number of users, the users, then the block.
pub open spec fn spec_encode_request(request: DemoComplicatedRequestView) -> Seq<u8> {
    spec_length(request.users.len()) + spec_encode_users(request.users) + spec_block(
        request.balabala,
    )
}

/// An answer as bytes.
pub open spec fn spec_encode_response(response: DemoResponse) -> Seq<u8> {
    spec_flag(response.pass)
}

/// Reads a user from the front of `bytes`.
pub open spec fn spec_read_user(bytes: Seq<u8>) -> Result<(DemoUserView, Seq<u8>), DecodeError> {
    match spec_read_text(bytes) {
        Err(error) => Err(error),
        Ok((name, rest)) => match spec_read_byte(rest) {
            Err(error) => Err(error),
            Ok((age, rest)) => Ok((DemoUserView { name, age }, rest)),
        },
    }
}

/// Reads `count` users from the front of `bytes`.
pub open spec fn spec_read_users(bytes: Seq<u8>, count: nat) -> Result<
    (Seq<DemoUserView>, Seq<u8>),
    DecodeError,
>
    decreases count,
{
    if count == 0 {
        Ok((Seq::empty(), bytes))
    } else {
        match spec_read_users(bytes, (count - 1) as nat) {
            Err(error) => Err(error),
            Ok((front, rest)) => match spec_read_user(rest) {
                Err(error) => Err(error),
                Ok((user, rest)) => Ok((front.push(user), rest)),
            },
        }
    }
}

/// Reads a request from the front of `bytes`.
pub open spec fn spec_read_request(bytes: Seq<u8>) -> Result<
    (DemoComplicatedRequestView, Seq<u8>),
    DecodeError,
> {
    match spec_read_length(bytes) {
        Err(error) => Err(error),
        Ok((count, rest)) => match spec_read_users(rest, count) {
            Err(error) => Err(error),
            Ok((users, rest)) => match spec_read_block(rest) {
                Err(error) => Err(error),
                Ok((balabala, rest)) => Ok((DemoComplicatedRequestView { users, balabala }, rest)),
            },
        },
    }
}

/// Reads an answer from the front of `bytes`.
pub open spec fn spec_read_response(bytes: Seq<u8>) -> Result<
    (DemoResponse, Seq<u8>),
    DecodeError,
> {
    match spec_read_flag(bytes) {
        Err(error) => Err(error),
        Ok((pass, rest)) => Ok((DemoResponse { pass }, rest)),
    }
}

/// The user that `bytes` hold, where they hold one user and nothing more.
pub open spec fn spec_decode_user(bytes: Seq<u8>) -> Result<DemoUserView, DecodeError> {
    spec_whole(spec_read_user(bytes))
}

/// The request that `bytes` hold, where they hold one request and nothing
/// more.
pub open spec fn spec_decode_request(bytes: Seq<u8>) -> Result<
    DemoComplicatedRequestView,
    DecodeError,
> {
    spec_whole(spec_read_request(bytes))
}

/// The answer that `bytes` hold, where they hold one answer and nothing
/// more.
pub open spec fn spec_decode_response(bytes: Seq<u8>) -> Result<DemoResponse, DecodeError> {
    spec_whole(spec_read_response(bytes))
}

/// A user that was written is read back, and what followed it is left.
pub proof fn lemma_read_user_of_user(user: DemoUserView, rest: Seq<u8>)
    requires
        user.spec_fits(),
    ensures
        spec_read_user(spec_encode_user(user) + rest) == Ok::<
            (DemoUserView, Seq<u8>),
            DecodeError,
        >((user, rest)),
{
    let tail = seq![user.age] + rest;
    assert(spec_encode_user(user) + rest =~= spec_text(user.name) + tail);
    lemma_read_text_of_text(user.name, tail);
    assert(tail.skip(1) =~= rest);
}

/// Users that were written are read back, in order, and what followed them
/// is left.
pub proof fn lemma_read_users_of_users(users: Seq<DemoUserView>, rest: Seq<u8>)
    requires
        forall|i: int| 0 <= i < users.len() ==> (#[trigger] users[i]).spec_fits(),
    ensures
        spec_read_users(spec_encode_users(users) + rest, users.len()) == Ok::<
            (Seq<DemoUserView>, Seq<u8>),
            DecodeError,
        >((users, rest)),
    decreases users.len(),
{
    if users.len() == 0 {
        assert(spec_encode_users(users) + rest =~= rest);
        assert(users =~= Seq::<DemoUserView>::empty());
    } else {
        let front = users.drop_last();
        let last = users.last();
        let tail = spec_encode_user(last) + rest;
        assert(spec_encode_users(users) + rest =~= spec_encode_users(front) + tail);
        assert forall|i: int| 0 <= i < front.len() implies (#[trigger] front[i]).spec_fits() by {
            assert(front[i] == users[i]);
        }
        lemma_read_users_of_users(front, tail);
        lemma_read_user_of_user(last, rest);
        assert(front.push(last) =~= users);
    }
}

/// A request that was written is read back, and what followed it is left.
pub proof fn lemma_read_request_of_request(request: DemoComplicatedRequestView, rest: Seq<u8>)
    requires
        request.spec_fits(),
    ensures
        spec_read_request(spec_encode_request(request) + rest) == Ok::<
            (DemoComplicatedRequestView, Seq<u8>),
            DecodeError,
        >((request, rest)),
{
    let block = spec_block(request.balabala) + rest;
    let users = spec_encode_users(request.users) + block;
    assert(spec_encode_request(request) + rest =~= spec_length(request.users.len()) + users);
    lemma_read_length_of_length(request.users.len(), users);
    lemma_read_users_of_users(request.users, block);
    lemma_read_block_of_block(request.balabala, rest);
}

/// Round trip of a user: the bytes written for a user are read as that
/// user.
pub proof fn lemma_user_round_trip(user: DemoUserView)
    requires
        user.spec_fits(),
    ensures
        spec_decode_user(spec_encode_user(user)) == Ok::<DemoUserView, DecodeError>(user),
{
    lemma_read_user_of_user(user, Seq::empty());
    assert(spec_encode_user(user) + Seq::<u8>::empty() =~= spec_encode_user(user));
}

/// Round trip of a request: the bytes written for a request are read as
/// that request, with the same users in the same order and the same block,
/// be they empty or not.
pub proof fn lemma_request_round_trip(request: DemoComplicatedRequestView)
    requires
        request.spec_fits(),
    ensures
        spec_decode_request(spec_encode_request(request)) == Ok::<
            DemoComplicatedRequestView,
            DecodeError,
        >(request),
{
    lemma_read_request_of_request(request, Seq::empty());
    assert(spec_encode_request(request) + Seq::<u8>::empty() =~= spec_encode_request(request));
}

/// Round trip of an answer: the bytes written for an answer are read as
/// that answer.
pub proof fn lemma_response_round_trip(response: DemoResponse)
    ensures
        spec_decode_response(spec_encode_response(response)) == Ok::<DemoResponse, DecodeError>(
            response,
        ),
{
    lemma_read_flag_of_flag(response.pass, Seq::empty());
    assert(spec_encode_response(response) + Seq::<u8>::empty() =~= spec_encode_response(
        response,
    ));
}

/// Once reading users has failed, asking for more users fails in the same
/// way.
pub proof fn lemma_read_users_stays_failed(bytes: Seq<u8>, failed: nat, count: nat)
    requires
        failed <= count,
        spec_read_users(bytes, failed) is Err,
    ensures
        spec_read_users(bytes, count) == spec_read_users(bytes, failed),
    decreases count,
{
    if failed < count {
        lemma_read_users_stays_failed(bytes, failed, (count - 1) as nat);
    }
}

fn write_user(out: &mut Vec<u8>, user: &DemoUser)
    ensures
        final(out)@ == old(out)@ + spec_encode_user(user@),
        user@.spec_fits(),
{
    write_text(out, user.name.as_str());
    out.push(user.age);
    assert(out@ =~= old(out)@ + spec_encode_user(user@));
}

fn read_user(bytes: &[u8], at: usize) -> (outcome: Result<(DemoUser, usize), DecodeError>)
    requires
        at <= bytes@.len(),
    ensures
        spec_read_as(bytes@, at, outcome, spec_read_user(bytes@.skip(at as int))),
{
    match read_text(bytes, at) {
        Err(error) => Err(error),
        Ok((name, next)) => match read_byte(bytes, next) {
            Err(error) => Err(error),
            Ok((age, end)) => Ok((DemoUser { name, age }, end)),
        },
    }
}

fn read_users(bytes: &[u8], at: usize, count: u64) -> (outcome: Result<
    (Vec<DemoUser>, usize),
    DecodeError,
>)
    requires
        at <= bytes@.len(),
    ensures
        match outcome {
            Ok((users, next)) => {
                &&& at <= next <= bytes@.len()
                &&& spec_read_users(bytes@.skip(at as int), count as nat) == Ok::<
                    (Seq<DemoUserView>, Seq<u8>),
                    DecodeError,
                >((spec_user_views(users@), bytes@.skip(next as int)))
            },
            Err(error) => spec_read_users(bytes@.skip(at as int), count as nat) == Err::<
                (Seq<DemoUserView>, Seq<u8>),
                DecodeError,
            >(error),
        },
{
    let ghost from = bytes@.skip(at as int);
    let mut users: Vec<DemoUser> = Vec::new();
    let mut next: usize = at;
    let mut read: u64 = 0;
    assert(spec_user_views(users@) =~= Seq::<DemoUserView>::empty());
    while read < count
        invariant
            read <= count,
            at <= next <= bytes@.len(),
            from == bytes@.skip(at as int),
            spec_read_users(from, read as nat) == Ok::<(Seq<DemoUserView>, Seq<u8>), DecodeError>(
                (spec_user_views(users@), bytes@.skip(next as int)),
            ),
        decreases count - read,
    {
        match read_user(bytes, next) {
            Err(error) => {
                proof {
                    lemma_read_users_stays_failed(from, (read + 1) as nat, count as nat);
                }
                return Err(error);
            },
            Ok((user, end)) => {
                let ghost before = users@;
                users.push(user);
                assert(spec_user_views(users@) =~= spec_user_views(before).push(user@));
                next = end;
            },
        }
        read += 1;
    }
    Ok((users, next))
}

fn read_request(bytes: &[u8], at: usize) -> (outcome: Result<
    (DemoComplicatedRequest, usize),
    DecodeError,
>)
    requires
        at <= bytes@.len(),
    ensures
        spec_read_as(bytes@, at, outcome, spec_read_request(bytes@.skip(at as int))),
{
    match read_length(bytes, at) {
        Err(error) => Err(error),
        Ok((count, start)) => match read_users(bytes, start, count) {
            Err(error) => Err(error),
            Ok((users, next)) => match read_block(bytes, next) {
                Err(error) => Err(error),
                Ok((balabala, end)) => Ok((DemoComplicatedRequest { users, balabala }, end)),
            },
        },
    }
}

impl DemoUser {
    /// Writes the user as bytes.
    pub fn encode(&self) -> (bytes: Vec<u8>)
        ensures
            bytes@ == spec_encode_user(self@),
            self@.spec_fits(),
    {
        let mut bytes: Vec<u8> = Vec::new();
        write_user(&mut bytes, self);
        assert(Seq::<u8>::empty() + spec_encode_user(self@) =~= spec_encode_user(self@));
        bytes
    }

    /// Reads the user that `bytes` hold. Bytes that end early, hold a name
    /// that is not UTF-8, or go on after the user are refused.
    pub fn decode(bytes: &[u8]) -> (outcome: Result<DemoUser, DecodeError>)
        ensures
            spec_decoded_as(outcome, spec_decode_user(bytes@)),
    {
        assert(bytes@.skip(0) =~= bytes@);
        whole(bytes, read_user(bytes, 0))
    }
}

impl DemoComplicatedRequest {
    /// Writes the request as bytes.
    pub fn encode(&self) -> (bytes: Vec<u8>)
        ensures
            bytes@ == spec_encode_request(self@),
            self@.spec_fits(),
    {
        let mut bytes: Vec<u8> = Vec::new();
        write_length(&mut bytes, self.users.len() as u64);
        let ghost headed = bytes@;
        let mut i: usize = 0;
        assert(spec_user_views(self.users@).take(0) =~= Seq::<DemoUserView>::empty());
        while i < self.users.len()
            invariant
                i <= self.users@.len(),
                bytes@ == headed + spec_encode_users(spec_user_views(self.users@).take(i as int)),
                forall|k: int|
                    0 <= k < i ==> (#[trigger] spec_user_views(self.users@)[k]).spec_fits(),
            decreases self.users@.len() - i,
        {
            let ghost written = spec_user_views(self.users@).take(i as int);
            let ghost longer = spec_user_views(self.users@).take(i + 1);
            write_user(&mut bytes, &self.users[i]);
            proof {
                assert(longer.drop_last() =~= written);
                assert(longer.last() == self.users@[i as int]@);
                assert(bytes@ =~= headed + spec_encode_users(longer));
            }
            i += 1;
        }
        assert(spec_user_views(self.users@).take(i as int) =~= spec_user_views(self.users@));
        write_block(&mut bytes, self.balabala.as_slice());
        assert(self.balabala@.len() == self.balabala.len());
        assert(bytes@ =~= spec_encode_request(self@));
        bytes
    }

    /// Reads the request that `bytes` hold. Bytes that end early, hold a
    /// name that is not UTF-8, or go on after the request are refused.
    pub fn decode(bytes: &[u8]) -> (outcome: Result<DemoComplicatedRequest, DecodeError>)
        ensures
            spec_decoded_as(outcome, spec_decode_request(bytes@)),
    {
        assert(bytes@.skip(0) =~= bytes@);
        whole(bytes, read_request(bytes, 0))
    }
}

impl DemoResponse {
    /// Writes the answer as bytes.
    pub fn encode(&self) -> (bytes: Vec<u8>)
        ensures
            bytes@ == spec_encode_response(*self),
    {
        let mut bytes: Vec<u8> = Vec::new();
        write_flag(&mut bytes, self.pass);
        assert(Seq::<u8>::empty() + spec_flag(self.pass) =~= spec_flag(self.pass));
        bytes
    }

    /// Reads the answer that `bytes` hold. Bytes that are not exactly one
    /// byte, zero or one, are refused.
    pub fn decode(bytes: &[u8]) -> (outcome: Result<DemoResponse, DecodeError>)
        ensures
            spec_decoded_as(outcome, spec_decode_response(bytes@)),
    {
        assert(bytes@.skip(0) =~= bytes@);
        match read_flag(bytes, 0) {
            Err(error) => Err(error),
            Ok((pass, next)) => if next == bytes.len() {
                Ok(DemoResponse { pass })
            } else {
                Err(DecodeError::TrailingBytes)
            },
        }
    }
}

} // verus!
