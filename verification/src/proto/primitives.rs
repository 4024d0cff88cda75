//! SOME/IP primitive types.
//!
//! Strongly-typed definitions for the primitives used by the SOME/IP protocol, with their
//! big-endian serialization.

use crate::bytes::de::{fixed, Deserialize, DeserializeError};
use crate::bytes::ser::{Serialize, SerializeError};
use crate::bytes::wire::{be_u16, be_u32, put_u16, put_u32, u16_from_be, u32_from_be, Reader};
use vstd::prelude::*;

verus! {

/// Unique identifier of a service interface.
///
/// A service is a logical combination of zero or more methods, zero or more events, and zero or
/// more fields.
#[derive(Debug, Clone, Copy, PartialEq, Eq, PartialOrd, Ord, Hash)]
pub struct ServiceId(u16);

impl View for ServiceId {
    type V = u16;

    closed spec fn view(&self) -> u16 {
        self.0
    }
}

impl DeepView for ServiceId {
    type V = u16;

    open spec fn deep_view(&self) -> u16 {
        self@
    }
}

impl ServiceId {
    /// Creates a new [`ServiceId`] with the given `value`.
    pub fn new(value: u16) -> (id: Self)
        ensures
            id@ == value,
    {
        Self(value)
    }

    /// Returns the [`u16`] representation of this [`ServiceId`].
    pub fn as_u16(self) -> (value: u16)
        ensures
            value == self@,
    {
        self.0
    }

    /// Two values are equal exactly when their representations are.
    pub proof fn lemma_view_eq(a: Self, b: Self)
        ensures
            (a == b) <==> (a@ == b@),
    {
    }
}

impl From<u16> for ServiceId {
    fn from(value: u16) -> (id: Self) {
        Self(value)
    }
}

impl vstd::std_specs::convert::FromSpecImpl<u16> for ServiceId {
    open spec fn obeys_from_spec() -> bool {
        true
    }

    closed spec fn from_spec(v: u16) -> Self {
        ServiceId(v)
    }
}

impl From<ServiceId> for u16 {
    fn from(value: ServiceId) -> (v: Self) {
        value.0
    }
}

impl vstd::std_specs::convert::FromSpecImpl<ServiceId> for u16 {
    open spec fn obeys_from_spec() -> bool {
        true
    }

    open spec fn from_spec(v: ServiceId) -> Self {
        v@
    }
}

impl Serialize for ServiceId {
    open spec fn spec_serialize(&self) -> Result<Seq<u8>, SerializeError> {
        Ok(be_u16(self@))
    }

    open spec fn spec_size(&self) -> Option<usize> {
        Some(2)
    }

    proof fn lemma_size_agrees(&self) {
    }

    fn serialize(&self, buffer: &mut Vec<u8>) -> (result: Result<usize, SerializeError>) {
        put_u16(buffer, self.0);
        Ok(2)
    }

    fn size(&self) -> (result: Option<usize>) {
        Some(2)
    }
}

impl Deserialize for ServiceId {
    type Output = Self;

    open spec fn spec_deserialize(input: Seq<u8>) -> Result<(u16, nat), DeserializeError> {
        fixed(input, 2, u16_from_be(input))
    }

    open spec fn spec_size_hint() -> Option<usize> {
        Some(2)
    }

    fn deserialize(buffer: &mut Reader) -> (result: Result<Self, DeserializeError>) {
        match buffer.try_get_u16() {
            Ok(v) => Ok(Self(v)),
            Err(e) => Err(e),
        }
    }

    fn size_hint() -> (result: Option<usize>) {
        Some(2)
    }
}

/// Unique identifier of a method, field or event on a service interface.
///
/// It's common practice to use the range `0x0000-0x7fff` for methods and the range
/// `0x8000-0xffff` for events and notifications.
#[derive(Debug, Clone, Copy, PartialEq, Eq, PartialOrd, Ord, Hash)]
pub struct MethodId(u16);

impl View for MethodId {
    type V = u16;

    closed spec fn view(&self) -> u16 {
        self.0
    }
}

impl DeepView for MethodId {
    type V = u16;

    open spec fn deep_view(&self) -> u16 {
        self@
    }
}

impl MethodId {
    /// Creates a new [`MethodId`] with the given `value`.
    pub fn new(value: u16) -> (id: Self)
        ensures
            id@ == value,
    {
        Self(value)
    }

    /// Returns the [`u16`] representation of this [`MethodId`].
    pub fn as_u16(self) -> (value: u16)
        ensures
            value == self@,
    {
        self.0
    }

    /// Two values are equal exactly when their representations are.
    pub proof fn lemma_view_eq(a: Self, b: Self)
        ensures
            (a == b) <==> (a@ == b@),
    {
    }
}

impl From<u16> for MethodId {
    fn from(value: u16) -> (id: Self) {
        Self(value)
    }
}

impl vstd::std_specs::convert::FromSpecImpl<u16> for MethodId {
    open spec fn obeys_from_spec() -> bool {
        true
    }

    closed spec fn from_spec(v: u16) -> Self {
        MethodId(v)
    }
}

impl From<MethodId> for u16 {
    fn from(value: MethodId) -> (v: Self) {
        value.0
    }
}

impl vstd::std_specs::convert::FromSpecImpl<MethodId> for u16 {
    open spec fn obeys_from_spec() -> bool {
        true
    }

    open spec fn from_spec(v: MethodId) -> Self {
        v@
    }
}

impl Serialize for MethodId {
    open spec fn spec_serialize(&self) -> Result<Seq<u8>, SerializeError> {
        Ok(be_u16(self@))
    }

    open spec fn spec_size(&self) -> Option<usize> {
        Some(2)
    }

    proof fn lemma_size_agrees(&self) {
    }

    fn serialize(&self, buffer: &mut Vec<u8>) -> (result: Result<usize, SerializeError>) {
        put_u16(buffer, self.0);
        Ok(2)
    }

    fn size(&self) -> (result: Option<usize>) {
        Some(2)
    }
}

impl Deserialize for MethodId {
    type Output = Self;

    open spec fn spec_deserialize(input: Seq<u8>) -> Result<(u16, nat), DeserializeError> {
        fixed(input, 2, u16_from_be(input))
    }

    open spec fn spec_size_hint() -> Option<usize> {
        Some(2)
    }

    fn deserialize(buffer: &mut Reader) -> (result: Result<Self, DeserializeError>) {
        match buffer.try_get_u16() {
            Ok(v) => Ok(Self(v)),
            Err(e) => Err(e),
        }
    }

    fn size_hint() -> (result: Option<usize>) {
        Some(2)
    }
}

/// Unique identifier of the client of a service interface.
///
/// This is used to differentiate calls from multiple clients to the same method.
#[derive(Debug, Clone, Copy, PartialEq, Eq, PartialOrd, Ord, Hash)]
pub struct ClientId(u16);

impl View for ClientId {
    type V = u16;

    closed spec fn view(&self) -> u16 {
        self.0
    }
}

impl DeepView for ClientId {
    type V = u16;

    open spec fn deep_view(&self) -> u16 {
        self@
    }
}

impl ClientId {
    /// Creates a new [`ClientId`] with the given `value`.
    pub fn new(value: u16) -> (id: Self)
        ensures
            id@ == value,
    {
        Self(value)
    }

    /// Returns the [`u16`] representation of this [`ClientId`].
    pub fn as_u16(self) -> (value: u16)
        ensures
            value == self@,
    {
        self.0
    }

    /// Two values are equal exactly when their representations are.
    pub proof fn lemma_view_eq(a: Self, b: Self)
        ensures
            (a == b) <==> (a@ == b@),
    {
    }
}

impl From<u16> for ClientId {
    fn from(value: u16) -> (id: Self) {
        Self(value)
    }
}

impl vstd::std_specs::convert::FromSpecImpl<u16> for ClientId {
    open spec fn obeys_from_spec() -> bool {
        true
    }

    closed spec fn from_spec(v: u16) -> Self {
        ClientId(v)
    }
}

impl From<ClientId> for u16 {
    fn from(value: ClientId) -> (v: Self) {
        value.0
    }
}

impl vstd::std_specs::convert::FromSpecImpl<ClientId> for u16 {
    open spec fn obeys_from_spec() -> bool {
        true
    }

    open spec fn from_spec(v: ClientId) -> Self {
        v@
    }
}

impl Serialize for ClientId {
    open spec fn spec_serialize(&self) -> Result<Seq<u8>, SerializeError> {
        Ok(be_u16(self@))
    }

    open spec fn spec_size(&self) -> Option<usize> {
        Some(2)
    }

    proof fn lemma_size_agrees(&self) {
    }

    fn serialize(&self, buffer: &mut Vec<u8>) -> (result: Result<usize, SerializeError>) {
        put_u16(buffer, self.0);
        Ok(2)
    }

    fn size(&self) -> (result: Option<usize>) {
        Some(2)
    }
}

impl Deserialize for ClientId {
    type Output = Self;

    open spec fn spec_deserialize(input: Seq<u8>) -> Result<(u16, nat), DeserializeError> {
        fixed(input, 2, u16_from_be(input))
    }

    open spec fn spec_size_hint() -> Option<usize> {
        Some(2)
    }

    fn deserialize(buffer: &mut Reader) -> (result: Result<Self, DeserializeError>) {
        match buffer.try_get_u16() {
            Ok(v) => Ok(Self(v)),
            Err(e) => Err(e),
        }
    }

    fn size_hint() -> (result: Option<usize>) {
        Some(2)
    }
}

/// Unique identifier of a sequential message or request.
///
/// When session handling is active (`0x0001-0xffff`), the session ID is incremented for each new
/// request and wraps back around to `1` after `0xffff`. Responses copy the ID of the request, and
/// SOME/IP-TP segments carry the ID of the original message.
#[derive(Debug, Clone, Copy, PartialEq, Eq, PartialOrd, Ord, Hash)]
pub struct SessionId(u16);

impl View for SessionId {
    type V = u16;

    closed spec fn view(&self) -> u16 {
        self.0
    }
}

impl DeepView for SessionId {
    type V = u16;

    open spec fn deep_view(&self) -> u16 {
        self@
    }
}

impl SessionId {
    /// Creates a new [`SessionId`] with the given `value`.
    pub fn new(value: u16) -> (id: Self)
        ensures
            id@ == value,
    {
        Self(value)
    }

    /// Returns the [`u16`] representation of this [`SessionId`].
    pub fn as_u16(self) -> (value: u16)
        ensures
            value == self@,
    {
        self.0
    }

    /// Two values are equal exactly when their representations are.
    pub proof fn lemma_view_eq(a: Self, b: Self)
        ensures
            (a == b) <==> (a@ == b@),
    {
    }
}

impl From<u16> for SessionId {
    fn from(value: u16) -> (id: Self) {
        Self(value)
    }
}

impl vstd::std_specs::convert::FromSpecImpl<u16> for SessionId {
    open spec fn obeys_from_spec() -> bool {
        true
    }

    closed spec fn from_spec(v: u16) -> Self {
        SessionId(v)
    }
}

impl From<SessionId> for u16 {
    fn from(value: SessionId) -> (v: Self) {
        value.0
    }
}

impl vstd::std_specs::convert::FromSpecImpl<SessionId> for u16 {
    open spec fn obeys_from_spec() -> bool {
        true
    }

    open spec fn from_spec(v: SessionId) -> Self {
        v@
    }
}

impl Serialize for SessionId {
    open spec fn spec_serialize(&self) -> Result<Seq<u8>, SerializeError> {
        Ok(be_u16(self@))
    }

    open spec fn spec_size(&self) -> Option<usize> {
        Some(2)
    }

    proof fn lemma_size_agrees(&self) {
    }

    fn serialize(&self, buffer: &mut Vec<u8>) -> (result: Result<usize, SerializeError>) {
        put_u16(buffer, self.0);
        Ok(2)
    }

    fn size(&self) -> (result: Option<usize>) {
        Some(2)
    }
}

impl Deserialize for SessionId {
    type Output = Self;

    open spec fn spec_deserialize(input: Seq<u8>) -> Result<(u16, nat), DeserializeError> {
        fixed(input, 2, u16_from_be(input))
    }

    open spec fn spec_size_hint() -> Option<usize> {
        Some(2)
    }

    fn deserialize(buffer: &mut Reader) -> (result: Result<Self, DeserializeError>) {
        match buffer.try_get_u16() {
            Ok(v) => Ok(Self(v)),
            Err(e) => Err(e),
        }
    }

    fn size_hint() -> (result: Option<usize>) {
        Some(2)
    }
}

/// Major version of the SOME/IP protocol.
#[derive(Debug, Clone, Copy, PartialEq, Eq, PartialOrd, Ord, Hash)]
pub struct ProtocolVersion(u8);

impl View for ProtocolVersion {
    type V = u8;

    closed spec fn view(&self) -> u8 {
        self.0
    }
}

impl DeepView for ProtocolVersion {
    type V = u8;

    open spec fn deep_view(&self) -> u8 {
        self@
    }
}

impl ProtocolVersion {
    /// Creates a new [`ProtocolVersion`] with the given `value`.
    pub fn new(value: u8) -> (id: Self)
        ensures
            id@ == value,
    {
        Self(value)
    }

    /// Returns the [`u8`] representation of this [`ProtocolVersion`].
    pub fn as_u8(self) -> (value: u8)
        ensures
            value == self@,
    {
        self.0
    }

    /// Two values are equal exactly when their representations are.
    pub proof fn lemma_view_eq(a: Self, b: Self)
        ensures
            (a == b) <==> (a@ == b@),
    {
    }
}

impl From<u8> for ProtocolVersion {
    fn from(value: u8) -> (id: Self) {
        Self(value)
    }
}

impl vstd::std_specs::convert::FromSpecImpl<u8> for ProtocolVersion {
    open spec fn obeys_from_spec() -> bool {
        true
    }

    closed spec fn from_spec(v: u8) -> Self {
        ProtocolVersion(v)
    }
}

impl From<ProtocolVersion> for u8 {
    fn from(value: ProtocolVersion) -> (v: Self) {
        value.0
    }
}

impl vstd::std_specs::convert::FromSpecImpl<ProtocolVersion> for u8 {
    open spec fn obeys_from_spec() -> bool {
        true
    }

    open spec fn from_spec(v: ProtocolVersion) -> Self {
        v@
    }
}

impl Serialize for ProtocolVersion {
    open spec fn spec_serialize(&self) -> Result<Seq<u8>, SerializeError> {
        Ok(seq![self@])
    }

    open spec fn spec_size(&self) -> Option<usize> {
        Some(1)
    }

    proof fn lemma_size_agrees(&self) {
    }

    fn serialize(&self, buffer: &mut Vec<u8>) -> (result: Result<usize, SerializeError>) {
        buffer.push(self.0);
        assert(buffer@ =~= old(buffer)@ + seq![self@]);
        Ok(1)
    }

    fn size(&self) -> (result: Option<usize>) {
        Some(1)
    }
}

impl Deserialize for ProtocolVersion {
    type Output = Self;

    open spec fn spec_deserialize(input: Seq<u8>) -> Result<(u8, nat), DeserializeError> {
        fixed(input, 1, input[0])
    }

    open spec fn spec_size_hint() -> Option<usize> {
        Some(1)
    }

    fn deserialize(buffer: &mut Reader) -> (result: Result<Self, DeserializeError>) {
        match buffer.try_get_u8() {
            Ok(v) => Ok(Self(v)),
            Err(e) => Err(e),
        }
    }

    fn size_hint() -> (result: Option<usize>) {
        Some(1)
    }
}

/// Major version of a service interface.
///
/// It identifies the format of the message body, and is incremented for incompatible changes to
/// the payload format or the service behavior.
#[derive(Debug, Clone, Copy, PartialEq, Eq, PartialOrd, Ord, Hash)]
pub struct InterfaceVersion(u8);

impl View for InterfaceVersion {
    type V = u8;

    closed spec fn view(&self) -> u8 {
        self.0
    }
}

impl DeepView for InterfaceVersion {
    type V = u8;

    open spec fn deep_view(&self) -> u8 {
        self@
    }
}

impl InterfaceVersion {
    /// Creates a new [`InterfaceVersion`] with the given `value`.
    pub fn new(value: u8) -> (id: Self)
        ensures
            id@ == value,
    {
        Self(value)
    }

    /// Returns the [`u8`] representation of this [`InterfaceVersion`].
    pub fn as_u8(self) -> (value: u8)
        ensures
            value == self@,
    {
        self.0
    }

    /// Two values are equal exactly when their representations are.
    pub proof fn lemma_view_eq(a: Self, b: Self)
        ensures
            (a == b) <==> (a@ == b@),
    {
    }
}

impl From<u8> for InterfaceVersion {
    fn from(value: u8) -> (id: Self) {
        Self(value)
    }
}

impl vstd::std_specs::convert::FromSpecImpl<u8> for InterfaceVersion {
    open spec fn obeys_from_spec() -> bool {
        true
    }

    closed spec fn from_spec(v: u8) -> Self {
        InterfaceVersion(v)
    }
}

impl From<InterfaceVersion> for u8 {
    fn from(value: InterfaceVersion) -> (v: Self) {
        value.0
    }
}

impl vstd::std_specs::convert::FromSpecImpl<InterfaceVersion> for u8 {
    open spec fn obeys_from_spec() -> bool {
        true
    }

    open spec fn from_spec(v: InterfaceVersion) -> Self {
        v@
    }
}

impl Serialize for InterfaceVersion {
    open spec fn spec_serialize(&self) -> Result<Seq<u8>, SerializeError> {
        Ok(seq![self@])
    }

    open spec fn spec_size(&self) -> Option<usize> {
        Some(1)
    }

    proof fn lemma_size_agrees(&self) {
    }

    fn serialize(&self, buffer: &mut Vec<u8>) -> (result: Result<usize, SerializeError>) {
        buffer.push(self.0);
        assert(buffer@ =~= old(buffer)@ + seq![self@]);
        Ok(1)
    }

    fn size(&self) -> (result: Option<usize>) {
        Some(1)
    }
}

impl Deserialize for InterfaceVersion {
    type Output = Self;

    open spec fn spec_deserialize(input: Seq<u8>) -> Result<(u8, nat), DeserializeError> {
        fixed(input, 1, input[0])
    }

    open spec fn spec_size_hint() -> Option<usize> {
        Some(1)
    }

    fn deserialize(buffer: &mut Reader) -> (result: Result<Self, DeserializeError>) {
        match buffer.try_get_u8() {
            Ok(v) => Ok(Self(v)),
            Err(e) => Err(e),
        }
    }

    fn size_hint() -> (result: Option<usize>) {
        Some(1)
    }
}

/// [`MessageType`] and associated flags packed into a single byte.
#[derive(Debug, Clone, Copy, PartialEq, Eq)]
pub struct MessageTypeField(u8);

impl View for MessageTypeField {
    type V = u8;

    closed spec fn view(&self) -> u8 {
        self.0
    }
}

impl DeepView for MessageTypeField {
    type V = u8;

    open spec fn deep_view(&self) -> u8 {
        self@
    }
}

impl MessageTypeField {
    /// Creates a new [`MessageTypeField`] with the given `value`.
    pub fn new(value: u8) -> (id: Self)
        ensures
            id@ == value,
    {
        Self(value)
    }

    /// Returns the [`u8`] representation of this [`MessageTypeField`].
    pub fn as_u8(self) -> (value: u8)
        ensures
            value == self@,
    {
        self.0
    }

    /// Two values are equal exactly when their representations are.
    pub proof fn lemma_view_eq(a: Self, b: Self)
        ensures
            (a == b) <==> (a@ == b@),
    {
    }
}

impl From<u8> for MessageTypeField {
    fn from(value: u8) -> (id: Self) {
        Self(value)
    }
}

impl vstd::std_specs::convert::FromSpecImpl<u8> for MessageTypeField {
    open spec fn obeys_from_spec() -> bool {
        true
    }

    closed spec fn from_spec(v: u8) -> Self {
        MessageTypeField(v)
    }
}

impl From<MessageTypeField> for u8 {
    fn from(value: MessageTypeField) -> (v: Self) {
        value.0
    }
}

impl vstd::std_specs::convert::FromSpecImpl<MessageTypeField> for u8 {
    open spec fn obeys_from_spec() -> bool {
        true
    }

    open spec fn from_spec(v: MessageTypeField) -> Self {
        v@
    }
}

impl Serialize for MessageTypeField {
    open spec fn spec_serialize(&self) -> Result<Seq<u8>, SerializeError> {
        Ok(seq![self@])
    }

    open spec fn spec_size(&self) -> Option<usize> {
        Some(1)
    }

    proof fn lemma_size_agrees(&self) {
    }

    fn serialize(&self, buffer: &mut Vec<u8>) -> (result: Result<usize, SerializeError>) {
        buffer.push(self.0);
        assert(buffer@ =~= old(buffer)@ + seq![self@]);
        Ok(1)
    }

    fn size(&self) -> (result: Option<usize>) {
        Some(1)
    }
}

impl Deserialize for MessageTypeField {
    type Output = Self;

    open spec fn spec_deserialize(input: Seq<u8>) -> Result<(u8, nat), DeserializeError> {
        fixed(input, 1, input[0])
    }

    open spec fn spec_size_hint() -> Option<usize> {
        Some(1)
    }

    fn deserialize(buffer: &mut Reader) -> (result: Result<Self, DeserializeError>) {
        match buffer.try_get_u8() {
            Ok(v) => Ok(Self(v)),
            Err(e) => Err(e),
        }
    }

    fn size_hint() -> (result: Option<usize>) {
        Some(1)
    }
}

/// Unique identifier of a method or event on a service interface.
///
/// Consists of a [`ServiceId`] followed by a [`MethodId`].
#[derive(Debug, Clone, Copy, PartialEq, Eq, PartialOrd, Ord, Hash)]
pub struct MessageId {
    /// Service portion of the id.
    pub service: ServiceId,
    /// Method portion of the id.
    pub method: MethodId,
}

/// The [`u32`] representation of a service and a method id.
pub open spec fn spec_id_u32(high: u16, low: u16) -> u32 {
    ((high as u32) << 16u32) | (low as u32)
}

/// The high half of a [`u32`].
pub open spec fn spec_high_u16(value: u32) -> u16 {
    (value >> 16u32) as u16
}

/// The low half of a [`u32`].
pub open spec fn spec_low_u16(value: u32) -> u16 {
    (value & 0xffffu32) as u16
}

/// Splitting a [`u32`] into halves and joining them back gives the same value, and the other way
/// around.
pub proof fn lemma_u32_halves(value: u32, high: u16, low: u16)
    ensures
        spec_id_u32(spec_high_u16(value), spec_low_u16(value)) == value,
        spec_high_u16(spec_id_u32(high, low)) == high,
        spec_low_u16(spec_id_u32(high, low)) == low,
{
    assert(((((value >> 16u32) as u16) as u32) << 16u32) | (((value & 0xffffu32) as u16) as u32)
        == value) by (bit_vector);
    assert((((((high as u32) << 16u32) | (low as u32)) >> 16u32) as u16) == high) by (bit_vector);
    assert((((((high as u32) << 16u32) | (low as u32)) & 0xffffu32) as u16) == low) by (bit_vector);
}

impl MessageId {
    /// The [`u32`] representation of `self`.
    pub open spec fn spec_as_u32(self) -> u32 {
        spec_id_u32(self.service@, self.method@)
    }

    /// Creates a new [`MessageId`] with the given `service` and `method` ids.
    pub fn new(service: ServiceId, method: MethodId) -> (id: Self)
        ensures
            id.service == service,
            id.method == method,
    {
        Self { service, method }
    }

    /// Returns `self` with its [`ServiceId`] set to `value`.
    pub fn with_service(self, value: ServiceId) -> (id: Self)
        ensures
            id == (Self { service: value, ..self }),
    {
        Self { service: value, ..self }
    }

    /// Returns `self` with its [`MethodId`] set to `value`.
    pub fn with_method(self, value: MethodId) -> (id: Self)
        ensures
            id == (Self { method: value, ..self }),
    {
        Self { method: value, ..self }
    }

    /// Creates a new [`MessageId`] from the given [`u32`]: the service id is the high half, the
    /// method id the low half.
    pub fn from_u32(value: u32) -> (id: Self)
        ensures
            id.service@ == spec_high_u16(value),
            id.method@ == spec_low_u16(value),
    {
        let service = ServiceId::new((value >> 16u32) as u16);
        let method = MethodId::new((value & 0xffffu32) as u16);
        Self::new(service, method)
    }

    /// Returns the [`u32`] representation of `self`.
    pub fn as_u32(self) -> (value: u32)
        ensures
            value == self.spec_as_u32(),
    {
        let service = (self.service.as_u16() as u32) << 16u32;
        service | (self.method.as_u16() as u32)
    }
}

impl From<u32> for MessageId {
    fn from(value: u32) -> (id: Self) {
        Self::from_u32(value)
    }
}

impl vstd::std_specs::convert::FromSpecImpl<u32> for MessageId {
    open spec fn obeys_from_spec() -> bool {
        true
    }

    closed spec fn from_spec(v: u32) -> Self {
        Self { service: ServiceId(spec_high_u16(v)), method: MethodId(spec_low_u16(v)) }
    }
}

impl From<MessageId> for u32 {
    fn from(value: MessageId) -> (v: Self) {
        value.as_u32()
    }
}

impl vstd::std_specs::convert::FromSpecImpl<MessageId> for u32 {
    open spec fn obeys_from_spec() -> bool {
        true
    }

    open spec fn from_spec(v: MessageId) -> Self {
        v.spec_as_u32()
    }
}

impl DeepView for MessageId {
    type V = u32;

    open spec fn deep_view(&self) -> u32 {
        self.spec_as_u32()
    }
}

impl Serialize for MessageId {
    open spec fn spec_serialize(&self) -> Result<Seq<u8>, SerializeError> {
        Ok(be_u32(self.spec_as_u32()))
    }

    open spec fn spec_size(&self) -> Option<usize> {
        Some(4)
    }

    proof fn lemma_size_agrees(&self) {
    }

    fn serialize(&self, buffer: &mut Vec<u8>) -> (result: Result<usize, SerializeError>) {
        put_u32(buffer, self.as_u32());
        Ok(4)
    }

    fn size(&self) -> (result: Option<usize>) {
        Some(4)
    }
}

impl Deserialize for MessageId {
    type Output = Self;

    open spec fn spec_deserialize(input: Seq<u8>) -> Result<(u32, nat), DeserializeError> {
        fixed(input, 4, u32_from_be(input))
    }

    open spec fn spec_size_hint() -> Option<usize> {
        Some(4)
    }

    fn deserialize(buffer: &mut Reader) -> (result: Result<Self, DeserializeError>) {
        match buffer.try_get_u32() {
            Ok(v) => {
                let id = Self::from_u32(v);
                proof {
                    lemma_u32_halves(v, 0, 0);
                }
                Ok(id)
            },
            Err(e) => Err(e),
        }
    }

    fn size_hint() -> (result: Option<usize>) {
        Some(4)
    }
}

impl ClientId {
    /// The prefix of an id: its high byte.
    pub open spec fn spec_prefix(self) -> u8 {
        (self@ >> 8u16) as u8
    }

    /// Returns the prefix of this id.
    pub fn prefix(&self) -> (prefix: u8)
        ensures
            prefix == self.spec_prefix(),
    {
        (self.0 >> 8u16) as u8
    }

    /// Returns `self` with the given `prefix`: the prefix becomes the high byte, and the low byte
    /// is kept.
    pub fn with_prefix(self, prefix: u8) -> (id: Self)
        ensures
            id@ == (self@ & 0x00ffu16) | ((prefix as u16) << 8u16),
            id.spec_prefix() == prefix,
            id@ as u8 == self@ as u8,
    {
        let id = Self((self.0 & 0x00ff) | ((prefix as u16) << 8u16));
        let v = self.0;
        assert((((v & 0x00ffu16) | ((prefix as u16) << 8u16)) >> 8u16) as u8 == prefix) by (bit_vector);
        assert((((v & 0x00ffu16) | ((prefix as u16) << 8u16)) as u8) == (v as u8)) by (bit_vector);
        id
    }
}

impl SessionId {
    /// Default value when session handling is disabled.
    pub fn disabled() -> (id: SessionId)
        ensures
            id@ == 0,
    {
        SessionId(0)
    }

    /// Default value when session handling is enabled.
    pub fn enabled() -> (id: SessionId)
        ensures
            id@ == 1,
    {
        SessionId(1)
    }

    /// The id that follows `value`: the next one, wrapping around to `1` after `0xffff`.
    pub open spec fn spec_next(value: u16) -> u16 {
        if value == 0xffff {
            1
        } else {
            (value + 1) as u16
        }
    }

    /// Whether session handling is enabled: it is when the id is greater than `0`.
    pub fn is_enabled(self) -> (enabled: bool)
        ensures
            enabled == (self@ > 0),
    {
        self.0 > 0
    }

    /// Increments this [`SessionId`] by one and returns the old value.
    ///
    /// After `0xffff`, incrementing the ID wraps it back to `1`.
    pub fn increment(&mut self) -> (previous: Self)
        ensures
            previous == *old(self),
            final(self)@ == Self::spec_next(old(self)@),
    {
        let old = self.0;
        self.0 = if old == 0xffffu16 {
            1
        } else {
            old + 1
        };
        Self(old)
    }
}

/// Unique identifier of message to a service interface.
///
/// Consists of a [`ClientId`] followed by a [`SessionId`].
#[derive(Debug, Clone, Copy, PartialEq, Eq, PartialOrd, Ord, Hash)]
pub struct RequestId {
    /// Client portion of the id.
    pub client: ClientId,
    /// Session portion of the id.
    pub session: SessionId,
}

impl RequestId {
    /// The [`u32`] representation of `self`.
    pub open spec fn spec_as_u32(self) -> u32 {
        spec_id_u32(self.client@, self.session@)
    }

    /// Creates a new [`RequestId`] with the given `client` and `session` ids.
    pub fn new(client: ClientId, session: SessionId) -> (id: Self)
        ensures
            id.client == client,
            id.session == session,
    {
        Self { client, session }
    }

    /// Returns `self` with its [`ClientId`] set to `value`.
    pub fn with_client(self, value: ClientId) -> (id: Self)
        ensures
            id == (Self { client: value, ..self }),
    {
        Self { client: value, ..self }
    }

    /// Returns `self` with its [`SessionId`] set to `value`.
    pub fn with_session(self, value: SessionId) -> (id: Self)
        ensures
            id == (Self { session: value, ..self }),
    {
        Self { session: value, ..self }
    }

    /// Creates a new [`RequestId`] from the given [`u32`]: the client id is the high half, the
    /// session id the low half.
    pub fn from_u32(value: u32) -> (id: Self)
        ensures
            id.client@ == spec_high_u16(value),
            id.session@ == spec_low_u16(value),
    {
        let client = ClientId::new((value >> 16u32) as u16);
        let session = SessionId::new((value & 0xffffu32) as u16);
        Self::new(client, session)
    }

    /// Returns the [`u32`] representation of `self`.
    pub fn as_u32(self) -> (value: u32)
        ensures
            value == self.spec_as_u32(),
    {
        let client = (self.client.as_u16() as u32) << 16u32;
        client | (self.session.as_u16() as u32)
    }
}

impl From<u32> for RequestId {
    fn from(value: u32) -> (id: Self) {
        Self::from_u32(value)
    }
}

impl vstd::std_specs::convert::FromSpecImpl<u32> for RequestId {
    open spec fn obeys_from_spec() -> bool {
        true
    }

    closed spec fn from_spec(v: u32) -> Self {
        Self { client: ClientId(spec_high_u16(v)), session: SessionId(spec_low_u16(v)) }
    }
}

impl From<RequestId> for u32 {
    fn from(value: RequestId) -> (v: Self) {
        value.as_u32()
    }
}

impl vstd::std_specs::convert::FromSpecImpl<RequestId> for u32 {
    open spec fn obeys_from_spec() -> bool {
        true
    }

    open spec fn from_spec(v: RequestId) -> Self {
        v.spec_as_u32()
    }
}

impl DeepView for RequestId {
    type V = u32;

    open spec fn deep_view(&self) -> u32 {
        self.spec_as_u32()
    }
}

impl Serialize for RequestId {
    open spec fn spec_serialize(&self) -> Result<Seq<u8>, SerializeError> {
        Ok(be_u32(self.spec_as_u32()))
    }

    open spec fn spec_size(&self) -> Option<usize> {
        Some(4)
    }

    proof fn lemma_size_agrees(&self) {
    }

    fn serialize(&self, buffer: &mut Vec<u8>) -> (result: Result<usize, SerializeError>) {
        put_u32(buffer, self.as_u32());
        Ok(4)
    }

    fn size(&self) -> (result: Option<usize>) {
        Some(4)
    }
}

impl Deserialize for RequestId {
    type Output = Self;

    open spec fn spec_deserialize(input: Seq<u8>) -> Result<(u32, nat), DeserializeError> {
        fixed(input, 4, u32_from_be(input))
    }

    open spec fn spec_size_hint() -> Option<usize> {
        Some(4)
    }

    fn deserialize(buffer: &mut Reader) -> (result: Result<Self, DeserializeError>) {
        match buffer.try_get_u32() {
            Ok(v) => {
                let id = Self::from_u32(v);
                proof {
                    lemma_u32_halves(v, 0, 0);
                }
                Ok(id)
            },
            Err(e) => Err(e),
        }
    }

    fn size_hint() -> (result: Option<usize>) {
        Some(4)
    }
}

impl MessageTypeField {
    /// Transport Protocol flag. Determines if the message is a segment of a larger message.
    pub const TP_FLAG: u8 = 0x20;

    /// A mask of all [`MessageTypeField`] flags.
    pub const ALL_FLAGS: u8 = 0x20;

    /// Whether the Transport Protocol flag is set.
    pub fn is_tp(&self) -> (tp: bool)
        ensures
            tp == (self@ & 0x20u8 == 0x20u8),
    {
        self.0 & Self::TP_FLAG == Self::TP_FLAG
    }

    /// Returns the mask of all currently enabled flags.
    pub fn flags(self) -> (flags: u8)
        ensures
            flags == self@ & 0x20u8,
    {
        self.0 & Self::ALL_FLAGS
    }

    /// Returns this [`MessageTypeField`] with the given `flags` set to `enabled`.
    pub fn with_flags(self, flags: u8, enabled: bool) -> (field: Self)
        ensures
            field@ == if enabled {
                self@ | flags
            } else {
                self@ & !flags
            },
    {
        if enabled {
            Self(self.0 | flags)
        } else {
            Self(self.0 & !flags)
        }
    }

    /// Returns the [`MessageType`] representation of this [`MessageTypeField`], ignoring all flags.
    pub fn as_type(self) -> (message_type: MessageType)
        ensures
            message_type == spec_message_type(self@),
    {
        MessageType::from_u8(self.0)
    }

    /// Creates a new [`MessageTypeField`] from the given [`MessageType`].
    pub fn from_type(value: MessageType) -> (field: Self)
        ensures
            field@ == value.spec_as_u8(),
    {
        Self(value.as_u8())
    }
}

/// Type of a SOME/IP message.
///
/// It's used both by servers and clients to specify how the message should be interpreted by the
/// peer.
#[non_exhaustive]
#[derive(Debug, Clone, Copy, PartialEq, Eq)]
pub enum MessageType {
    /// A request expecting a response.
    Request,
    /// A fire-and-forget request.
    RequestNoReturn,
    /// A notification or event callback expecting no response.
    Notification,
    /// A response message.
    Response,
    /// A response containing an error.
    Error,
    /// Unknown message type.
    Unknown(u8),
}

/// The [`MessageType`] that a byte stands for, once the flags are cleared.
pub open spec fn spec_message_type(value: u8) -> MessageType {
    let v = value & 0xdfu8;
    if v == 0x00 {
        MessageType::Request
    } else if v == 0x01 {
        MessageType::RequestNoReturn
    } else if v == 0x02 {
        MessageType::Notification
    } else if v == 0x80 {
        MessageType::Response
    } else if v == 0x81 {
        MessageType::Error
    } else {
        MessageType::Unknown(v)
    }
}

impl MessageType {
    /// The [`u8`] representation of `self`.
    pub open spec fn spec_as_u8(self) -> u8 {
        match self {
            MessageType::Request => 0x00,
            MessageType::RequestNoReturn => 0x01,
            MessageType::Notification => 0x02,
            MessageType::Response => 0x80,
            MessageType::Error => 0x81,
            MessageType::Unknown(x) => x,
        }
    }

    /// Whether `self` is what its own byte stands for: every type but an unknown one whose byte
    /// has a flag set or is the byte of a known type.
    pub open spec fn is_canonical(self) -> bool {
        match self {
            MessageType::Unknown(x) => x & 0x20u8 == 0 && x != 0x00 && x != 0x01 && x != 0x02
                && x != 0x80 && x != 0x81,
            _ => true,
        }
    }

    /// Creates a new [`MessageType`] from the given `value`, ignoring the flags.
    pub fn from_u8(value: u8) -> (message_type: Self)
        ensures
            message_type == spec_message_type(value),
    {
        let v = value & 0xdfu8;
        if v == 0x00 {
            Self::Request
        } else if v == 0x01 {
            Self::RequestNoReturn
        } else if v == 0x02 {
            Self::Notification
        } else if v == 0x80 {
            Self::Response
        } else if v == 0x81 {
            Self::Error
        } else {
            Self::Unknown(v)
        }
    }

    /// Returns the [`u8`] representation of `self`.
    pub fn as_u8(self) -> (value: u8)
        ensures
            value == self.spec_as_u8(),
    {
        match self {
            Self::Request => 0x00,
            Self::RequestNoReturn => 0x01,
            Self::Notification => 0x02,
            Self::Response => 0x80,
            Self::Error => 0x81,
            Self::Unknown(x) => x,
        }
    }

    /// Whether two message types are the same.
    pub fn is(self, other: MessageType) -> (same: bool)
        ensures
            same == (self == other),
    {
        match (self, other) {
            (Self::Request, Self::Request) => true,
            (Self::RequestNoReturn, Self::RequestNoReturn) => true,
            (Self::Notification, Self::Notification) => true,
            (Self::Response, Self::Response) => true,
            (Self::Error, Self::Error) => true,
            (Self::Unknown(x), Self::Unknown(y)) => x == y,
            _ => false,
        }
    }
}

impl From<u8> for MessageType {
    fn from(value: u8) -> (message_type: Self) {
        Self::from_u8(value)
    }
}

impl vstd::std_specs::convert::FromSpecImpl<u8> for MessageType {
    open spec fn obeys_from_spec() -> bool {
        true
    }

    open spec fn from_spec(v: u8) -> Self {
        spec_message_type(v)
    }
}

impl From<MessageType> for u8 {
    fn from(value: MessageType) -> (v: Self) {
        value.as_u8()
    }
}

impl vstd::std_specs::convert::FromSpecImpl<MessageType> for u8 {
    open spec fn obeys_from_spec() -> bool {
        true
    }

    open spec fn from_spec(v: MessageType) -> Self {
        v.spec_as_u8()
    }
}

impl DeepView for MessageType {
    type V = MessageType;

    open spec fn deep_view(&self) -> MessageType {
        *self
    }
}

impl Serialize for MessageType {
    open spec fn spec_serialize(&self) -> Result<Seq<u8>, SerializeError> {
        Ok(seq![self.spec_as_u8()])
    }

    open spec fn spec_size(&self) -> Option<usize> {
        Some(1)
    }

    proof fn lemma_size_agrees(&self) {
    }

    fn serialize(&self, buffer: &mut Vec<u8>) -> (result: Result<usize, SerializeError>) {
        buffer.push(self.as_u8());
        assert(buffer@ =~= old(buffer)@ + seq![self.spec_as_u8()]);
        Ok(1)
    }

    fn size(&self) -> (result: Option<usize>) {
        Some(1)
    }
}

impl Deserialize for MessageType {
    type Output = Self;

    open spec fn spec_deserialize(input: Seq<u8>) -> Result<(MessageType, nat), DeserializeError> {
        fixed(input, 1, spec_message_type(input[0]))
    }

    open spec fn spec_size_hint() -> Option<usize> {
        Some(1)
    }

    fn deserialize(buffer: &mut Reader) -> (result: Result<Self, DeserializeError>) {
        match buffer.try_get_u8() {
            Ok(v) => Ok(Self::from_u8(v)),
            Err(e) => Err(e),
        }
    }

    fn size_hint() -> (result: Option<usize>) {
        Some(1)
    }
}

/// Result of processing a SOME/IP request.
#[non_exhaustive]
#[derive(Debug, Clone, Copy, PartialEq, Eq)]
pub enum ReturnCode {
    /// No error occurred.
    NoError,
    /// An unspecified error occurred.
    NotOk,
    /// The requested [`ServiceId`] is unknown.
    UnknownService,
    /// The requested [`MethodId`] is unknown.
    UnknownMethod,
    /// Application not running.
    NotReady,
    /// System running the service not reachable (internal only).
    NotReachable,
    /// A timeout occurred (internal only).
    Timeout,
    /// Version of the SOME/IP protocol not supported.
    WrongProtocolVersion,
    /// Interface version mismatch.
    WrongInterfaceVersion,
    /// Payload could not be deserialized.
    MalformedMessage,
    /// Wrong [`MessageType`] was received.
    WrongMessageType,
    /// Repeated E2E calculation error.
    E2eRepeated,
    /// Wrong E2E sequence error.
    E2eWrongSequence,
    /// Unspecified E2E error.
    E2e,
    /// E2E not available.
    E2eNotAvailable,
    /// No new data for E2E calculation present.
    E2eNoNewData,
    /// Reserved for generic errors to be specified in future versions of SOME/IP.
    Reserved(u8),
    /// Reserved for errors specified by the service interface.
    Other(u8),
}

/// The [`ReturnCode`] that a byte stands for.
pub open spec fn spec_return_code(value: u8) -> ReturnCode {
    if value == 0x00 {
        ReturnCode::NoError
    } else if value == 0x01 {
        ReturnCode::NotOk
    } else if value == 0x02 {
        ReturnCode::UnknownService
    } else if value == 0x03 {
        ReturnCode::UnknownMethod
    } else if value == 0x04 {
        ReturnCode::NotReady
    } else if value == 0x05 {
        ReturnCode::NotReachable
    } else if value == 0x06 {
        ReturnCode::Timeout
    } else if value == 0x07 {
        ReturnCode::WrongProtocolVersion
    } else if value == 0x08 {
        ReturnCode::WrongInterfaceVersion
    } else if value == 0x09 {
        ReturnCode::MalformedMessage
    } else if value == 0x0a {
        ReturnCode::WrongMessageType
    } else if value == 0x0b {
        ReturnCode::E2eRepeated
    } else if value == 0x0c {
        ReturnCode::E2eWrongSequence
    } else if value == 0x0d {
        ReturnCode::E2e
    } else if value == 0x0e {
        ReturnCode::E2eNotAvailable
    } else if value == 0x0f {
        ReturnCode::E2eNoNewData
    } else if 0x10 <= value <= 0x5e {
        ReturnCode::Reserved(value)
    } else {
        ReturnCode::Other(value)
    }
}

impl ReturnCode {
    /// The [`u8`] representation of `self`.
    pub open spec fn spec_as_u8(self) -> u8 {
        match self {
            ReturnCode::NoError => 0x00,
            ReturnCode::NotOk => 0x01,
            ReturnCode::UnknownService => 0x02,
            ReturnCode::UnknownMethod => 0x03,
            ReturnCode::NotReady => 0x04,
            ReturnCode::NotReachable => 0x05,
            ReturnCode::Timeout => 0x06,
            ReturnCode::WrongProtocolVersion => 0x07,
            ReturnCode::WrongInterfaceVersion => 0x08,
            ReturnCode::MalformedMessage => 0x09,
            ReturnCode::WrongMessageType => 0x0a,
            ReturnCode::E2eRepeated => 0x0b,
            ReturnCode::E2eWrongSequence => 0x0c,
            ReturnCode::E2e => 0x0d,
            ReturnCode::E2eNotAvailable => 0x0e,
            ReturnCode::E2eNoNewData => 0x0f,
            ReturnCode::Reserved(x) => x,
            ReturnCode::Other(x) => x,
        }
    }

    /// Whether `self` is what its own byte stands for: every code but a reserved one outside of
    /// `0x10..=0x5e` or another one below `0x5f`.
    pub open spec fn is_canonical(self) -> bool {
        match self {
            ReturnCode::Reserved(x) => 0x10 <= x <= 0x5e,
            ReturnCode::Other(x) => x >= 0x5f,
            _ => true,
        }
    }
}

impl From<u8> for ReturnCode {
    fn from(value: u8) -> (code: Self) {
        match value {
            0x00 => Self::NoError,
            0x01 => Self::NotOk,
            0x02 => Self::UnknownService,
            0x03 => Self::UnknownMethod,
            0x04 => Self::NotReady,
            0x05 => Self::NotReachable,
            0x06 => Self::Timeout,
            0x07 => Self::WrongProtocolVersion,
            0x08 => Self::WrongInterfaceVersion,
            0x09 => Self::MalformedMessage,
            0x0a => Self::WrongMessageType,
            0x0b => Self::E2eRepeated,
            0x0c => Self::E2eWrongSequence,
            0x0d => Self::E2e,
            0x0e => Self::E2eNotAvailable,
            0x0f => Self::E2eNoNewData,
            n => if 0x10 <= n && n <= 0x5e {
                Self::Reserved(n)
            } else {
                Self::Other(n)
            },
        }
    }
}

impl vstd::std_specs::convert::FromSpecImpl<u8> for ReturnCode {
    open spec fn obeys_from_spec() -> bool {
        true
    }

    open spec fn from_spec(v: u8) -> Self {
        spec_return_code(v)
    }
}

/// The [`u8`] representation of a [`ReturnCode`].
pub(crate) fn return_code_to_u8(value: ReturnCode) -> (v: u8)
    ensures
        v == value.spec_as_u8(),
{
    match value {
        ReturnCode::NoError => 0x00,
        ReturnCode::NotOk => 0x01,
        ReturnCode::UnknownService => 0x02,
        ReturnCode::UnknownMethod => 0x03,
        ReturnCode::NotReady => 0x04,
        ReturnCode::NotReachable => 0x05,
        ReturnCode::Timeout => 0x06,
        ReturnCode::WrongProtocolVersion => 0x07,
        ReturnCode::WrongInterfaceVersion => 0x08,
        ReturnCode::MalformedMessage => 0x09,
        ReturnCode::WrongMessageType => 0x0a,
        ReturnCode::E2eRepeated => 0x0b,
        ReturnCode::E2eWrongSequence => 0x0c,
        ReturnCode::E2e => 0x0d,
        ReturnCode::E2eNotAvailable => 0x0e,
        ReturnCode::E2eNoNewData => 0x0f,
        ReturnCode::Reserved(x) => x,
        ReturnCode::Other(x) => x,
    }
}

impl From<ReturnCode> for u8 {
    fn from(value: ReturnCode) -> (v: Self) {
        return_code_to_u8(value)
    }
}

impl vstd::std_specs::convert::FromSpecImpl<ReturnCode> for u8 {
    open spec fn obeys_from_spec() -> bool {
        true
    }

    open spec fn from_spec(v: ReturnCode) -> Self {
        v.spec_as_u8()
    }
}

impl DeepView for ReturnCode {
    type V = ReturnCode;

    open spec fn deep_view(&self) -> ReturnCode {
        *self
    }
}

impl Serialize for ReturnCode {
    open spec fn spec_serialize(&self) -> Result<Seq<u8>, SerializeError> {
        Ok(seq![self.spec_as_u8()])
    }

    open spec fn spec_size(&self) -> Option<usize> {
        Some(1)
    }

    proof fn lemma_size_agrees(&self) {
    }

    fn serialize(&self, buffer: &mut Vec<u8>) -> (result: Result<usize, SerializeError>) {
        buffer.push(return_code_to_u8(*self));
        assert(buffer@ =~= old(buffer)@ + seq![self.spec_as_u8()]);
        Ok(1)
    }

    fn size(&self) -> (result: Option<usize>) {
        Some(1)
    }
}

impl Deserialize for ReturnCode {
    type Output = Self;

    open spec fn spec_deserialize(input: Seq<u8>) -> Result<(ReturnCode, nat), DeserializeError> {
        fixed(input, 1, spec_return_code(input[0]))
    }

    open spec fn spec_size_hint() -> Option<usize> {
        Some(1)
    }

    fn deserialize(buffer: &mut Reader) -> (result: Result<Self, DeserializeError>) {
        match buffer.try_get_u8() {
            Ok(v) => Ok(Self::from(v)),
            Err(e) => Err(e),
        }
    }

    fn size_hint() -> (result: Option<usize>) {
        Some(1)
    }
}

impl Default for ServiceId {
    /// The id `0`.
    fn default() -> (id: Self)
        ensures
            id@ == 0,
    {
        Self::new(0)
    }
}

impl Default for MethodId {
    /// The id `0`.
    fn default() -> (id: Self)
        ensures
            id@ == 0,
    {
        Self::new(0)
    }
}

impl Default for ClientId {
    /// The id `0`.
    fn default() -> (id: Self)
        ensures
            id@ == 0,
    {
        Self::new(0)
    }
}

impl Default for SessionId {
    /// The id `0`.
    fn default() -> (id: Self)
        ensures
            id@ == 0,
    {
        Self::new(0)
    }
}

impl Default for ProtocolVersion {
    /// The id `0`.
    fn default() -> (id: Self)
        ensures
            id@ == 0,
    {
        Self::new(0)
    }
}

impl Default for InterfaceVersion {
    /// The id `0`.
    fn default() -> (id: Self)
        ensures
            id@ == 0,
    {
        Self::new(0)
    }
}

impl Default for MessageTypeField {
    /// The id `0`.
    fn default() -> (id: Self)
        ensures
            id@ == 0,
    {
        Self::new(0)
    }
}

impl Default for MessageId {
    /// Service `0` and method `0`.
    fn default() -> (id: Self)
        ensures
            id.service@ == 0,
            id.method@ == 0,
    {
        Self::new(ServiceId::new(0), MethodId::new(0))
    }
}

impl Default for RequestId {
    /// Client `0` and session `0`.
    fn default() -> (id: Self)
        ensures
            id.client@ == 0,
            id.session@ == 0,
    {
        Self::new(ClientId::new(0), SessionId::new(0))
    }
}

impl Default for MessageType {
    /// A request.
    fn default() -> (message_type: Self)
        ensures
            message_type == MessageType::Request,
    {
        MessageType::Request
    }
}

impl Default for ReturnCode {
    /// No error.
    fn default() -> (code: Self)
        ensures
            code == ReturnCode::NoError,
    {
        ReturnCode::NoError
    }
}

} // verus!
