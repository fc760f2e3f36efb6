use bytes::{Bytes, BytesMut};
use ws_transport::codec::bitcode::{Bitcode, SymmetricalBitcode};
use ws_transport::codec::{Deserializer, Serializer};
use ws_transport::error::{unify, wrap, ErrorKind, Failure};

/// The codec as a caller plugs it in: the wire format does the work, the
/// library says what comes of it.
struct Wire<Item, SinkItem> {
    rules: Bitcode<Item, SinkItem>,
}

impl<Item, SinkItem> Wire<Item, SinkItem> {
    fn new() -> Self {
        Wire { rules: Bitcode::default() }
    }
}

impl<Item: serde::de::DeserializeOwned, SinkItem> Deserializer<Item> for Wire<Item, SinkItem> {
    type Error = Failure<bitcode::Error>;

    fn deserialize(&mut self, src: &BytesMut) -> Result<Item, Self::Error> {
        self.rules.deserialized(bitcode::deserialize(src))
    }
}

impl<Item, SinkItem: serde::Serialize> Serializer<SinkItem> for Wire<Item, SinkItem> {
    type Error = Failure<bitcode::Error>;

    fn serialize(&mut self, item: &SinkItem) -> Result<Bytes, Self::Error> {
        self.rules.serialized(bitcode::serialize(item))
    }
}

#[derive(Debug, Clone, PartialEq)]
struct Record {
    id: u32,
    name: String,
}

impl serde::Serialize for Record {
    fn serialize<S: serde::Serializer>(&self, serializer: S) -> Result<S::Ok, S::Error> {
        serde::Serialize::serialize(&(self.id, &self.name), serializer)
    }
}

impl<'de> serde::Deserialize<'de> for Record {
    fn deserialize<D: serde::Deserializer<'de>>(deserializer: D) -> Result<Self, D::Error> {
        let (id, name) = <(u32, String) as serde::Deserialize>::deserialize(deserializer)?;
        Ok(Record { id, name })
    }
}

/// A value that refuses to be encoded.
struct Unencodable;

impl serde::Serialize for Unencodable {
    fn serialize<S: serde::Serializer>(&self, _serializer: S) -> Result<S::Ok, S::Error> {
        Err(<S::Error as serde::ser::Error>::custom("refused"))
    }
}

fn wire_error() -> bitcode::Error {
    match bitcode::deserialize::<u32>(b"not-a-valid-encoding") {
        Err(error) => error,
        Ok(value) => panic!("decoded {value}"),
    }
}

#[test]
fn default_codec_holds_nothing() {
    let _codec: Bitcode<u32, String> = Bitcode::default();
    let _symmetric: SymmetricalBitcode<u32> = Bitcode::default();
    assert_eq!(std::mem::size_of::<Bitcode<u32, String>>(), 0);
    assert_eq!(std::mem::size_of::<SymmetricalBitcode<Record>>(), 0);
}

#[test]
fn serialized_moves_the_bytes_into_a_buffer() {
    let codec: SymmetricalBitcode<u32> = Bitcode::default();
    let buf = codec.serialized(Ok(vec![1u8, 2, 3, 250])).unwrap();
    assert_eq!(&buf[..], &[1u8, 2, 3, 250][..]);
    let empty = codec.serialized(Ok(Vec::new())).unwrap();
    assert!(empty.is_empty());
}

#[test]
fn serialized_reports_the_format_error_as_invalid_data() {
    let codec: SymmetricalBitcode<u32> = Bitcode::default();
    let expected = wire_error().to_string();
    let failure = codec.serialized(Err(wire_error())).unwrap_err();
    assert_eq!(failure.kind, ErrorKind::InvalidData);
    assert_eq!(failure.source.to_string(), expected);
}

#[test]
fn deserialized_passes_the_value_on() {
    let codec: SymmetricalBitcode<Record> = Bitcode::default();
    let record = Record { id: 7, name: "seven".to_string() };
    assert_eq!(codec.deserialized(Ok(record.clone())).unwrap(), record);
}

#[test]
fn deserialized_reports_the_format_error_as_invalid_data() {
    let codec: SymmetricalBitcode<Record> = Bitcode::default();
    let expected = wire_error().to_string();
    let failure = codec.deserialized(Err(wire_error())).unwrap_err();
    assert_eq!(failure.kind, ErrorKind::InvalidData);
    assert_eq!(failure.source.to_string(), expected);
}

#[test]
fn wrap_keeps_a_success_and_tags_a_failure() {
    assert_eq!(wrap::<u8, &str>(ErrorKind::InvalidData, Ok(5)), Ok(5));
    assert_eq!(
        wrap::<u8, &str>(ErrorKind::InvalidData, Err("bad")),
        Err(Failure { kind: ErrorKind::InvalidData, source: "bad" })
    );
    assert_eq!(
        wrap::<u8, &str>(ErrorKind::Other, Err("bad")),
        Err(Failure { kind: ErrorKind::Other, source: "bad" })
    );
}

#[test]
fn unify_gives_every_failure_the_same_kind() {
    assert_eq!(unify::<(), u32>(Ok(())), Ok(()));
    assert_eq!(unify::<(), u32>(Err(104)), Err(Failure { kind: ErrorKind::Other, source: 104 }));
    let nested = unify::<u8, Failure<&str>>(Err(Failure { kind: ErrorKind::InvalidData, source: "x" }));
    assert_eq!(
        nested,
        Err(Failure {
            kind: ErrorKind::Other,
            source: Failure { kind: ErrorKind::InvalidData, source: "x" },
        })
    );
}

#[test]
fn record_survives_encode_then_decode() {
    let mut codec: Wire<Record, Record> = Wire::new();
    let record = Record { id: 1, name: "a".to_string() };
    let encoded = codec.serialize(&record).unwrap();
    assert_eq!(&encoded[..], &bitcode::serialize(&record).unwrap()[..]);
    let decoded = codec.deserialize(&BytesMut::from(&encoded[..])).unwrap();
    assert_eq!(decoded, Record { id: 1, name: "a".to_string() });
}

#[test]
fn values_of_many_shapes_survive_encode_then_decode() {
    let mut numbers: Wire<u64, u64> = Wire::new();
    for value in [0u64, 1, 255, 256, u64::MAX] {
        let encoded = numbers.serialize(&value).unwrap();
        assert_eq!(numbers.deserialize(&BytesMut::from(&encoded[..])).unwrap(), value);
    }
    let mut texts: Wire<String, String> = Wire::new();
    for value in ["", "a", "not-a-valid-encoding", "\u{1F980} crab"] {
        let encoded = texts.serialize(&value.to_string()).unwrap();
        assert_eq!(texts.deserialize(&BytesMut::from(&encoded[..])).unwrap(), value);
    }
    let mut lists: Wire<Vec<(u8, bool)>, Vec<(u8, bool)>> = Wire::new();
    for value in [vec![], vec![(0u8, true)], vec![(1, false), (2, true), (3, false)]] {
        let encoded = lists.serialize(&value).unwrap();
        assert_eq!(lists.deserialize(&BytesMut::from(&encoded[..])).unwrap(), value);
    }
    let mut options: Wire<Option<i32>, Option<i32>> = Wire::new();
    for value in [None, Some(-1), Some(i32::MIN)] {
        let encoded = options.serialize(&value).unwrap();
        assert_eq!(options.deserialize(&BytesMut::from(&encoded[..])).unwrap(), value);
    }
}

#[test]
fn asymmetric_codec_decodes_one_type_and_encodes_another() {
    let mut codec: Wire<Record, u64> = Wire::new();
    let encoded = codec.serialize(&9u64).unwrap();
    assert_eq!(&encoded[..], &bitcode::serialize(&9u64).unwrap()[..]);
    let frame = bitcode::serialize(&Record { id: 3, name: "c".to_string() }).unwrap();
    let decoded = codec.deserialize(&BytesMut::from(&frame[..])).unwrap();
    assert_eq!(decoded, Record { id: 3, name: "c".to_string() });
}

#[test]
fn malformed_bytes_do_not_decode() {
    let mut codec: Wire<Record, Record> = Wire::new();
    let failure = codec.deserialize(&BytesMut::from(&b"not-a-valid-encoding"[..])).unwrap_err();
    assert_eq!(failure.kind, ErrorKind::InvalidData);
    let failure = codec.deserialize(&BytesMut::new()).unwrap_err();
    assert_eq!(failure.kind, ErrorKind::InvalidData);
}

#[test]
fn value_without_an_encoding_does_not_encode() {
    let mut codec: Wire<u8, Unencodable> = Wire::new();
    let failure = codec.serialize(&Unencodable).unwrap_err();
    assert_eq!(failure.kind, ErrorKind::InvalidData);
}
