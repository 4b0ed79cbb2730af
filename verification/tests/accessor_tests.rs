use protoreflect::accessor::make_map_accessor;
use protoreflect::accessor::make_repeated_bytes_accessor;
use protoreflect::accessor::make_repeated_bool_accessor;
use protoreflect::accessor::make_repeated_f32_accessor;
use protoreflect::accessor::make_repeated_f64_accessor;
use protoreflect::accessor::make_repeated_i32_accessor;
use protoreflect::accessor::make_repeated_i64_accessor;
use protoreflect::accessor::make_repeated_u64_accessor;
use protoreflect::accessor::make_repeated_enum_accessor;
use protoreflect::accessor::make_repeated_message_accessor;
use protoreflect::accessor::make_repeated_string_accessor;
use protoreflect::accessor::make_repeated_u32_accessor;
use protoreflect::accessor::make_singular_bool_accessor;
use protoreflect::accessor::make_singular_bytes_accessor;
use protoreflect::accessor::make_singular_enum_accessor;
use protoreflect::accessor::make_singular_f32_accessor;
use protoreflect::accessor::make_singular_f64_accessor;
use protoreflect::accessor::make_singular_i32_accessor;
use protoreflect::accessor::make_singular_i64_accessor;
use protoreflect::accessor::make_singular_message_accessor;
use protoreflect::accessor::make_singular_proto3_string_accessor;
use protoreflect::accessor::make_singular_proto3_u32_accessor;
use protoreflect::accessor::make_singular_string_accessor;
use protoreflect::accessor::make_singular_u32_accessor;
use protoreflect::accessor::make_singular_u64_accessor;
use protoreflect::accessor::make_vec_accessor;
use protoreflect::accessor::ReflectFieldKind;
use protoreflect::containers::ReflectMap;
use protoreflect::containers::ReflectRepeated;
use protoreflect::value::EnumValueDescriptor;
use protoreflect::value::ReflectValue;
use protoreflect::value::SimpleEnumValue;

#[derive(Clone, Default)]
struct Inner {
    x: u32,
}

#[derive(Clone)]
struct TestRecord {
    id: i32,
    has_id: bool,
    count: u32,
    big: u64,
    offset: i64,
    flag: bool,
    has_flag: bool,
    label: String,
    has_label: bool,
    data: Vec<u8>,
    has_data: bool,
    ratio_bits: u32,
    has_ratio: bool,
    precise_bits: u64,
    has_precise: bool,
    color: SimpleEnumValue,
    has_color: bool,
    inner: Inner,
    has_inner: bool,
    nums: Vec<u32>,
    labels: Vec<String>,
    blobs: Vec<Vec<u8>>,
    colors: Vec<SimpleEnumValue>,
    inners: Vec<Inner>,
}

fn color(name: &'static str, number: i32) -> SimpleEnumValue {
    SimpleEnumValue { desc: EnumValueDescriptor { name, number } }
}

fn fresh_record() -> TestRecord {
    TestRecord {
        id: 0,
        has_id: false,
        count: 0,
        big: 0,
        offset: 0,
        flag: false,
        has_flag: false,
        label: String::new(),
        has_label: false,
        data: Vec::new(),
        has_data: false,
        ratio_bits: 0,
        has_ratio: false,
        precise_bits: 0,
        has_precise: false,
        color: color("UNKNOWN", 0),
        has_color: false,
        inner: Inner { x: 0 },
        has_inner: false,
        nums: Vec::new(),
        labels: Vec::new(),
        blobs: Vec::new(),
        colors: Vec::new(),
        inners: Vec::new(),
    }
}

#[test]
fn name_is_kept() {
    let acc = make_singular_u32_accessor(
        "count",
        |_m: &TestRecord| true,
        |m: &TestRecord| m.count,
    );
    assert_eq!(acc.name_generic(), "count");
}

#[test]
fn singular_u32_round_trip() {
    let acc = make_singular_u32_accessor(
        "count",
        |_m: &TestRecord| true,
        |m: &TestRecord| m.count,
    );
    let mut rec = fresh_record();
    rec.count = 123456;
    assert_eq!(acc.get_u32_generic(&rec), 123456);
}

#[test]
fn singular_u64_round_trip() {
    let acc = make_singular_u64_accessor(
        "big",
        |_m: &TestRecord| true,
        |m: &TestRecord| m.big,
    );
    let mut rec = fresh_record();
    rec.big = u64::MAX - 7;
    assert_eq!(acc.get_u64_generic(&rec), u64::MAX - 7);
}

#[test]
fn singular_i64_round_trip() {
    let acc = make_singular_i64_accessor(
        "offset",
        |_m: &TestRecord| true,
        |m: &TestRecord| m.offset,
    );
    let mut rec = fresh_record();
    rec.offset = -987654321i64;
    assert_eq!(acc.get_i64_generic(&rec), -987654321i64);
}

#[test]
fn singular_bool_round_trip() {
    let acc = make_singular_bool_accessor(
        "flag",
        |m: &TestRecord| m.has_flag,
        |m: &TestRecord| m.flag,
    );
    let mut rec = fresh_record();
    rec.flag = true;
    rec.has_flag = true;
    assert!(acc.get_bool_generic(&rec));
}

#[test]
fn singular_string_round_trip() {
    let acc = make_singular_string_accessor(
        "label",
        |m: &TestRecord| m.has_label,
        |m: &TestRecord| m.label.as_str(),
    );
    let mut rec = fresh_record();
    rec.label = String::from("hello");
    rec.has_label = true;
    assert_eq!(acc.get_str_generic(&rec), "hello");
}

#[test]
fn singular_bytes_round_trip() {
    let acc = make_singular_bytes_accessor(
        "data",
        |m: &TestRecord| m.has_data,
        |m: &TestRecord| m.data.as_slice(),
    );
    let mut rec = fresh_record();
    rec.data = vec![0u8, 255u8, 7u8];
    rec.has_data = true;
    assert_eq!(acc.get_bytes_generic(&rec), &[0u8, 255u8, 7u8]);
}

#[test]
fn singular_f32_bits_round_trip_exact() {
    let acc = make_singular_f32_accessor(
        "ratio",
        |m: &TestRecord| m.has_ratio,
        |m: &TestRecord| m.ratio_bits,
    );
    let mut rec = fresh_record();
    let v: f32 = 3.14159274;
    rec.ratio_bits = v.to_bits();
    rec.has_ratio = true;
    let got = f32::from_bits(acc.get_f32_generic(&rec));
    assert_eq!(got.to_bits(), v.to_bits());
    assert_eq!(got, v);
}

#[test]
fn singular_f64_bits_round_trip_exact() {
    let acc = make_singular_f64_accessor(
        "precise",
        |m: &TestRecord| m.has_precise,
        |m: &TestRecord| m.precise_bits,
    );
    let mut rec = fresh_record();
    let v: f64 = -2.718281828459045;
    rec.precise_bits = v.to_bits();
    rec.has_precise = true;
    let got = f64::from_bits(acc.get_f64_generic(&rec));
    assert_eq!(got.to_bits(), v.to_bits());
    assert_eq!(got, v);
}

#[test]
fn always_present_has_is_true_on_fresh_record() {
    let acc = make_singular_proto3_u32_accessor("count", |m: &TestRecord| m.count);
    let rec = fresh_record();
    assert!(acc.has_field_generic(&rec));
}

#[test]
fn always_present_has_is_true_whatever_the_value() {
    let acc = make_singular_proto3_u32_accessor("count", |m: &TestRecord| m.count);
    let mut rec = fresh_record();
    assert!(acc.has_field_generic(&rec));
    rec.count = 9;
    assert!(acc.has_field_generic(&rec));
}

#[test]
fn always_present_string_getter_still_reads_value() {
    let acc = make_singular_proto3_string_accessor("label", |m: &TestRecord| m.label.as_str());
    let mut rec = fresh_record();
    assert!(acc.has_field_generic(&rec));
    assert_eq!(acc.get_str_generic(&rec), "");
    rec.label = String::from("set");
    assert_eq!(acc.get_str_generic(&rec), "set");
}

#[test]
fn explicit_presence_false_when_fresh_true_after_zero_assignment() {
    let acc = make_singular_i32_accessor(
        "id",
        |m: &TestRecord| m.has_id,
        |m: &TestRecord| m.id,
    );
    let mut rec = fresh_record();
    assert!(!acc.has_field_generic(&rec));
    rec.id = 0;
    rec.has_id = true;
    assert!(acc.has_field_generic(&rec));
    assert_eq!(acc.get_i32_generic(&rec), 0);
}

#[test]
fn end_to_end_optional_i32_id() {
    let acc = make_singular_i32_accessor(
        "id",
        |m: &TestRecord| m.has_id,
        |m: &TestRecord| m.id,
    );
    let mut rec = fresh_record();
    assert!(!acc.has_field_generic(&rec));
    rec.id = 42;
    rec.has_id = true;
    assert!(acc.has_field_generic(&rec));
    assert_eq!(acc.get_i32_generic(&rec), 42);
}

#[test]
fn singular_enum_resolves_descriptor() {
    let acc = make_singular_enum_accessor(
        "color",
        |m: &TestRecord| m.has_color,
        |m: &TestRecord| m.color,
    );
    let mut rec = fresh_record();
    rec.color = color("GREEN", 2);
    rec.has_color = true;
    let d = acc.get_enum_generic(&rec);
    assert_eq!(d.name, "GREEN");
    assert_eq!(d.number, 2);
}

#[test]
fn singular_message_borrows_submessage() {
    let acc = make_singular_message_accessor(
        "inner",
        |m: &TestRecord| m.has_inner,
        |m: &TestRecord| &m.inner,
    );
    let mut rec = fresh_record();
    rec.inner = Inner { x: 77 };
    rec.has_inner = true;
    assert_eq!(acc.get_message_generic(&rec).x, 77);
}

#[test]
fn repeated_u32_length_and_items() {
    let acc = make_repeated_u32_accessor("nums", |m: &TestRecord| m.nums.as_slice());
    let mut rec = fresh_record();
    rec.nums = vec![5, 10, 15];
    assert_eq!(acc.len_field_generic(&rec), 3);
    let items = acc.get_rep_u32_generic(&rec);
    assert_eq!(items, &[5, 10, 15]);
}

#[test]
fn repeated_string_length_and_items() {
    let acc = make_repeated_string_accessor("labels", |m: &TestRecord| m.labels.as_slice());
    let mut rec = fresh_record();
    rec.labels = vec![String::from("a"), String::from("b")];
    assert_eq!(acc.len_field_generic(&rec), 2);
    let items = acc.get_rep_str_generic(&rec);
    assert_eq!(items[0], "a");
    assert_eq!(items[1], "b");
}

#[test]
fn repeated_bytes_length_and_items() {
    let acc = make_repeated_bytes_accessor("blobs", |m: &TestRecord| m.blobs.as_slice());
    let mut rec = fresh_record();
    rec.blobs = vec![vec![1u8], vec![2u8, 3u8]];
    assert_eq!(acc.len_field_generic(&rec), 2);
    let items = acc.get_rep_bytes_generic(&rec);
    assert_eq!(items[1], vec![2u8, 3u8]);
}

#[test]
fn repeated_empty_length_is_zero() {
    let acc = make_repeated_u32_accessor("nums", |m: &TestRecord| m.nums.as_slice());
    let rec = fresh_record();
    assert_eq!(acc.len_field_generic(&rec), 0);
}

#[test]
fn repeated_enum_item_resolves_descriptor() {
    let acc = make_repeated_enum_accessor("colors", |m: &TestRecord| m.colors.as_slice());
    let mut rec = fresh_record();
    rec.colors = vec![color("RED", 1), color("BLUE", 3)];
    assert_eq!(acc.len_field_generic(&rec), 2);
    let d = acc.get_rep_enum_item_generic(&rec, 1);
    assert_eq!(d.name, "BLUE");
    assert_eq!(d.number, 3);
}

#[test]
fn repeated_message_item_borrows_element() {
    let acc = make_repeated_message_accessor("inners", |m: &TestRecord| m.inners.as_slice());
    let mut rec = fresh_record();
    rec.inners = vec![Inner { x: 1 }, Inner { x: 2 }, Inner { x: 3 }];
    assert_eq!(acc.len_field_generic(&rec), 3);
    assert_eq!(acc.get_rep_message_item_generic(&rec, 2).x, 3);
}

struct ContainerRecord {
    table: ReflectMap,
    list: ReflectRepeated,
}

#[test]
fn reflect_kind_trichotomy() {
    let map_acc = make_map_accessor(
        "table",
        |m: &ContainerRecord| &m.table,
        |mut m: ContainerRecord, new_value: ReflectMap| {
            m.table = new_value;
            m
        },
    );
    let vec_acc = make_vec_accessor(
        "list",
        |m: &ContainerRecord| &m.list,
        |mut m: ContainerRecord, new_value: ReflectRepeated| {
            m.list = new_value;
            m
        },
    );
    let sing_acc = make_singular_u32_accessor(
        "count",
        |_m: &TestRecord| true,
        |m: &TestRecord| m.count,
    );
    assert_eq!(map_acc.get_reflect_kind(), ReflectFieldKind::MapView);
    assert_eq!(vec_acc.get_reflect_kind(), ReflectFieldKind::Repeated);
    assert_eq!(sing_acc.get_reflect_kind(), ReflectFieldKind::Other);
}

#[test]
fn map_view_mutation_visible_through_new_view() {
    let acc = make_map_accessor(
        "table",
        |m: &ContainerRecord| &m.table,
        |mut m: ContainerRecord, new_value: ReflectMap| {
            m.table = new_value;
            m
        },
    );
    let rec = ContainerRecord { table: ReflectMap::new(), list: ReflectRepeated::new() };
    let mut view = acc.get_map_field(&rec).clone();
    view.insert(ReflectValue::Str(String::from("k")), ReflectValue::U32(7));
    let rec = acc.set_map_field(rec, view);
    let seen = acc.get_map_field(&rec);
    assert_eq!(
        seen.get(&ReflectValue::Str(String::from("k"))),
        Some(&ReflectValue::U32(7))
    );
    let mut view2 = acc.get_map_field(&rec).clone();
    view2.remove(&ReflectValue::Str(String::from("k")));
    let rec = acc.set_map_field(rec, view2);
    let seen2 = acc.get_map_field(&rec);
    assert_eq!(seen2.get(&ReflectValue::Str(String::from("k"))), None);
}

#[test]
fn two_immutable_map_views_agree() {
    let acc = make_map_accessor(
        "table",
        |m: &ContainerRecord| &m.table,
        |mut m: ContainerRecord, new_value: ReflectMap| {
            m.table = new_value;
            m
        },
    );
    let mut table = ReflectMap::new();
    table.insert(ReflectValue::I64(-4), ReflectValue::Bool(true));
    let rec = ContainerRecord { table, list: ReflectRepeated::new() };
    let v1 = acc.get_map_field(&rec);
    let v2 = acc.get_map_field(&rec);
    assert_eq!(v1, v2);
}

#[test]
fn repeated_container_mutation_visible_through_new_view() {
    let acc = make_vec_accessor(
        "list",
        |m: &ContainerRecord| &m.list,
        |mut m: ContainerRecord, new_value: ReflectRepeated| {
            m.list = new_value;
            m
        },
    );
    let rec = ContainerRecord { table: ReflectMap::new(), list: ReflectRepeated::new() };
    let mut view = acc.get_repeated_field(&rec).clone();
    view.push(ReflectValue::U64(11));
    view.push(ReflectValue::U64(22));
    let rec = acc.set_repeated_field(rec, view);
    let seen = acc.get_repeated_field(&rec);
    assert_eq!(seen.len(), 2);
    assert_eq!(seen.get(1), &ReflectValue::U64(22));
}

struct NumericRecord {
    ints: Vec<i32>,
    bigs: Vec<u64>,
    offsets: Vec<i64>,
    ratios_bits: Vec<u32>,
    precises_bits: Vec<u64>,
    flags: Vec<bool>,
}

#[test]
fn repeated_numeric_kinds_length_and_items() {
    let rec = NumericRecord {
        ints: vec![-1, 2, -3],
        bigs: vec![u64::MAX, 0],
        offsets: vec![i64::MIN, i64::MAX],
        ratios_bits: Vec::new(),
        precises_bits: Vec::new(),
        flags: vec![true, false, true],
    };
    let ints = make_repeated_i32_accessor("ints", |m: &NumericRecord| m.ints.as_slice());
    assert_eq!(ints.len_field_generic(&rec), 3);
    assert_eq!(ints.get_rep_i32_generic(&rec), &[-1, 2, -3]);
    let bigs = make_repeated_u64_accessor("bigs", |m: &NumericRecord| m.bigs.as_slice());
    assert_eq!(bigs.len_field_generic(&rec), 2);
    assert_eq!(bigs.get_rep_u64_generic(&rec), &[u64::MAX, 0]);
    let offsets = make_repeated_i64_accessor("offsets", |m: &NumericRecord| m.offsets.as_slice());
    assert_eq!(offsets.get_rep_i64_generic(&rec), &[i64::MIN, i64::MAX]);
    let flags = make_repeated_bool_accessor("flags", |m: &NumericRecord| m.flags.as_slice());
    assert_eq!(flags.get_rep_bool_generic(&rec), &[true, false, true]);
}

#[test]
fn repeated_float_kinds_carry_exact_bit_patterns() {
    let small: f32 = 0.1;
    let large: f64 = 1.0 / 3.0;
    let rec = NumericRecord {
        ints: Vec::new(),
        bigs: Vec::new(),
        offsets: Vec::new(),
        ratios_bits: vec![small.to_bits(), (-small).to_bits()],
        precises_bits: vec![large.to_bits()],
        flags: Vec::new(),
    };
    let ratios = make_repeated_f32_accessor("ratios", |m: &NumericRecord| {
        m.ratios_bits.as_slice()
    });
    assert_eq!(ratios.len_field_generic(&rec), 2);
    let bits = ratios.get_rep_f32_generic(&rec);
    assert_eq!(f32::from_bits(bits[0]), small);
    assert_eq!(f32::from_bits(bits[1]), -small);
    let precises = make_repeated_f64_accessor("precises", |m: &NumericRecord| {
        m.precises_bits.as_slice()
    });
    assert_eq!(f64::from_bits(precises.get_rep_f64_generic(&rec)[0]), large);
}
