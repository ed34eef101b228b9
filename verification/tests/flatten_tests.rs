use webidl_types::arguments::flatten;
use webidl_types::idl_type::IdlType;
use webidl_types::idl_type::IdlType::{
    Boolean, Byte, DomString, Double, Long, LongLong, Nullable, Object, Octet, Record, Sequence,
    Short, Union,
};

#[test]
fn idl_type_flatten_test() {
    assert_eq!(
        Union(vec![
            IdlType::Interface("Node".to_string()),
            Union(vec![
                Sequence(Box::new(Long)),
                IdlType::Interface("Event".to_string()),
            ]),
            Nullable(Box::new(Union(vec![
                IdlType::Interface("XMLHttpRequest".to_string()),
                DomString,
            ]))),
            Sequence(Box::new(Union(vec![
                Sequence(Box::new(Double)),
                IdlType::Interface("NodeList".to_string()),
            ]))),
        ])
        .flatten(),
        vec![
            IdlType::Interface("Node".to_string()),
            Sequence(Box::new(Long)),
            IdlType::Interface("Event".to_string()),
            Nullable(Box::new(IdlType::Interface("XMLHttpRequest".to_string()))),
            Nullable(Box::new(DomString)),
            Sequence(Box::new(Sequence(Box::new(Double)))),
            Sequence(Box::new(IdlType::Interface("NodeList".to_string()))),
        ],
    );
}

#[test]
fn arguments_flatten_test() {
    assert_eq!(
        flatten(&vec![
            (Union(vec![Short, Long]), false),
            (
                Union(vec![
                    Sequence(Box::new(Union(vec![Byte, Octet]))),
                    LongLong,
                ]),
                true,
            ),
            (DomString, true),
        ]),
        vec![
            vec![Short],
            vec![Long],
            vec![Short, Sequence(Box::new(Byte))],
            vec![Short, Sequence(Box::new(Octet))],
            vec![Short, LongLong],
            vec![Long, Sequence(Box::new(Byte))],
            vec![Long, Sequence(Box::new(Octet))],
            vec![Long, LongLong],
            vec![Short, Sequence(Box::new(Byte)), DomString],
            vec![Short, Sequence(Box::new(Octet)), DomString],
            vec![Short, LongLong, DomString],
            vec![Long, Sequence(Box::new(Byte)), DomString],
            vec![Long, Sequence(Box::new(Octet)), DomString],
            vec![Long, LongLong, DomString],
        ],
    );
}

#[test]
fn leaf_flattens_to_itself() {
    assert_eq!(Boolean.flatten(), vec![Boolean]);
    assert_eq!(
        Nullable(Box::new(Object)).flatten(),
        vec![Nullable(Box::new(Object))]
    );
    assert_eq!(
        Record(Box::new(DomString), Box::new(Long)).flatten(),
        vec![Record(Box::new(DomString), Box::new(Long))]
    );
}

#[test]
fn nullable_union_distributes() {
    assert_eq!(
        Nullable(Box::new(Union(vec![Boolean, Object]))).flatten(),
        vec![Nullable(Box::new(Boolean)), Nullable(Box::new(Object))],
    );
}

#[test]
fn record_union_cross_product() {
    let record = Record(
        Box::new(Union(vec![DomString, IdlType::ByteString])),
        Box::new(Union(vec![Short, Long])),
    );
    assert_eq!(
        record.flatten(),
        vec![
            Record(Box::new(DomString), Box::new(Short)),
            Record(Box::new(DomString), Box::new(Long)),
            Record(Box::new(IdlType::ByteString), Box::new(Short)),
            Record(Box::new(IdlType::ByteString), Box::new(Long)),
        ],
    );
}

#[test]
fn sequence_union_distributes() {
    assert_eq!(
        Sequence(Box::new(Union(vec![Byte, Octet]))).flatten(),
        vec![Sequence(Box::new(Byte)), Sequence(Box::new(Octet))],
    );
}

#[test]
fn flatten_results_are_union_free() {
    let deeply_nested = Union(vec![
        Sequence(Box::new(Union(vec![Byte, Union(vec![Short, Long])]))),
        Record(Box::new(DomString), Box::new(Union(vec![Boolean, Object]))),
    ]);
    let alternatives = deeply_nested.flatten();
    assert!(!alternatives.is_empty());
    for alternative in &alternatives {
        assert!(union_free_exec(alternative));
    }
}

fn union_free_exec(t: &IdlType) -> bool {
    match t {
        Nullable(inner) | IdlType::FrozenArray(inner) | Sequence(inner)
        | IdlType::Promise(inner) => union_free_exec(inner),
        Record(key, value) => union_free_exec(key) && union_free_exec(value),
        Union(_) => false,
        _ => true,
    }
}

#[test]
fn single_required_union_expands() {
    assert_eq!(
        flatten(&vec![(Union(vec![Short, Long]), false)]),
        vec![vec![Short], vec![Long]],
    );
}

#[test]
fn empty_argument_list_expands_to_one_empty_signature() {
    assert_eq!(flatten(&vec![]), vec![Vec::<IdlType>::new()]);
}

#[test]
fn leading_optional_argument_allows_empty_call() {
    assert_eq!(
        flatten(&vec![(DomString, true)]),
        vec![vec![], vec![DomString]],
    );
}

#[test]
fn required_arguments_take_full_cross_product() {
    assert_eq!(
        flatten(&vec![
            (Union(vec![Short, Long]), false),
            (Union(vec![Boolean, Object]), false),
        ]),
        vec![
            vec![Short, Boolean],
            vec![Short, Object],
            vec![Long, Boolean],
            vec![Long, Object],
        ],
    );
}
