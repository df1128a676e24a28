use cedar_policy_validator::types::{
    AttributeType, EntityLUB, OpenTag, Type, ValidationMode,
};
use cedar_policy_validator::validation_errors::LubHelp;

fn entity(name: &str) -> Type {
    Type::named_entity_reference(name.to_string())
}

fn entities(names: &[&str]) -> Type {
    let mut lub = EntityLUB::single_entity(names[0].to_string());
    for n in &names[1..] {
        lub = lub.union(&EntityLUB::single_entity(n.to_string()));
    }
    Type::Entity(lub)
}

fn attr(name: &str, ty: Type, required: bool) -> (String, AttributeType) {
    (
        name.to_string(),
        AttributeType {
            attr_type: ty,
            is_required: required,
        },
    )
}

fn closed(attrs: Vec<(String, AttributeType)>) -> Type {
    Type::record_with_attributes(attrs, OpenTag::ClosedAttributes)
}

fn open(attrs: Vec<(String, AttributeType)>) -> Type {
    Type::record_with_attributes(attrs, OpenTag::OpenAttributes)
}

fn samples() -> Vec<Type> {
    vec![
        Type::Never,
        Type::True,
        Type::False,
        Type::Boolean,
        Type::Long,
        Type::String,
        Type::set(Type::Never),
        Type::set(Type::Long),
        Type::set(Type::set(Type::True)),
        closed(vec![]),
        open(vec![]),
        closed(vec![attr("a", Type::True, true)]),
        closed(vec![attr("a", Type::Boolean, true)]),
        closed(vec![attr("a", Type::Boolean, false)]),
        open(vec![attr("a", Type::Boolean, true)]),
        closed(vec![attr("a", Type::Long, true), attr("b", Type::String, false)]),
        entity("User"),
        entity("Admin"),
        entities(&["Admin", "User"]),
        Type::ActionEntity(EntityLUB::single_entity("Action".to_string())),
        Type::AnyEntity,
        Type::Extension("ipaddr".to_string()),
        Type::Extension("decimal".to_string()),
    ]
}

const MODES: [ValidationMode; 2] = [ValidationMode::Strict, ValidationMode::Permissive];

#[test]
fn subtyping_is_reflexive_on_samples() {
    for mode in MODES {
        for t in samples() {
            assert!(Type::is_subtype(&t, &t, mode), "{:?}", t);
        }
    }
}

#[test]
fn subtyping_is_transitive_on_samples() {
    let all = samples();
    for mode in MODES {
        for a in &all {
            for b in &all {
                if !Type::is_subtype(a, b, mode) {
                    continue;
                }
                for c in &all {
                    if Type::is_subtype(b, c, mode) {
                        assert!(Type::is_subtype(a, c, mode), "{:?} {:?} {:?}", a, b, c);
                    }
                }
            }
        }
    }
}

#[test]
fn least_upper_bound_is_an_upper_bound_and_the_least_on_samples() {
    let all = samples();
    for mode in MODES {
        for a in &all {
            for b in &all {
                if let Ok(t) = Type::least_upper_bound(a, b, mode) {
                    assert!(Type::is_subtype(a, &t, mode), "{:?} {:?}", a, b);
                    assert!(Type::is_subtype(b, &t, mode), "{:?} {:?}", a, b);
                    for u in &all {
                        if Type::is_subtype(a, u, mode) && Type::is_subtype(b, u, mode) {
                            assert!(Type::is_subtype(&t, u, mode), "{:?} {:?} {:?}", a, b, u);
                        }
                    }
                }
            }
        }
    }
}

#[test]
fn never_is_bottom_on_samples() {
    for mode in MODES {
        for t in samples() {
            assert!(Type::is_subtype(&Type::Never, &t, mode));
            assert_eq!(Type::least_upper_bound(&Type::Never, &t, mode), Ok(t.clone()));
            assert_eq!(Type::least_upper_bound(&t, &Type::Never, mode), Ok(t.clone()));
        }
    }
}

#[test]
fn singleton_booleans_are_below_boolean_only() {
    let m = ValidationMode::Strict;
    assert!(Type::is_subtype(&Type::True, &Type::Boolean, m));
    assert!(Type::is_subtype(&Type::False, &Type::Boolean, m));
    assert!(!Type::is_subtype(&Type::True, &Type::False, m));
    assert!(!Type::is_subtype(&Type::False, &Type::True, m));
    assert!(!Type::is_subtype(&Type::Boolean, &Type::True, m));
    assert!(!Type::is_subtype(&Type::Long, &Type::Boolean, m));
}

#[test]
fn boolean_least_upper_bounds() {
    let m = ValidationMode::Strict;
    assert_eq!(Type::least_upper_bound(&Type::True, &Type::False, m), Ok(Type::Boolean));
    assert_eq!(Type::least_upper_bound(&Type::True, &Type::True, m), Ok(Type::True));
    assert_eq!(Type::least_upper_bound(&Type::False, &Type::False, m), Ok(Type::False));
    assert_eq!(Type::least_upper_bound(&Type::True, &Type::Boolean, m), Ok(Type::Boolean));
    assert_eq!(Type::least_upper_bound(&Type::Boolean, &Type::False, m), Ok(Type::Boolean));
}

#[test]
fn the_empty_set_type_is_below_every_set_type() {
    let m = ValidationMode::Strict;
    let empty = Type::set(Type::Never);
    assert!(Type::is_subtype(&empty, &Type::set(Type::Long), m));
    assert!(Type::is_subtype(&empty, &Type::set(entity("User")), m));
    assert!(!Type::is_subtype(&Type::set(Type::Long), &empty, m));
    assert!(!Type::is_subtype(&empty, &Type::Long, m));
}

#[test]
fn set_least_upper_bound_joins_the_elements() {
    let m = ValidationMode::Strict;
    assert_eq!(
        Type::least_upper_bound(&Type::set(Type::True), &Type::set(Type::False), m),
        Ok(Type::set(Type::Boolean))
    );
    assert_eq!(
        Type::least_upper_bound(&Type::set(Type::Long), &Type::set(Type::String), m),
        Err(LubHelp::NoHelp)
    );
    assert_eq!(
        Type::least_upper_bound(&Type::set(Type::Long), &Type::Long, m),
        Err(LubHelp::NoHelp)
    );
}

#[test]
fn record_subtyping_keeps_width_and_optionality() {
    let m = ValidationMode::Strict;
    let a_true = closed(vec![attr("a", Type::True, true)]);
    let a_bool = closed(vec![attr("a", Type::Boolean, true)]);
    let a_bool_opt = closed(vec![attr("a", Type::Boolean, false)]);
    let ab = closed(vec![attr("a", Type::Boolean, true), attr("b", Type::Long, true)]);
    let a_bool_open = open(vec![attr("a", Type::Boolean, true)]);
    assert!(Type::is_subtype(&a_true, &a_bool, m));
    assert!(!Type::is_subtype(&a_bool, &a_true, m));
    assert!(!Type::is_subtype(&a_bool, &a_bool_opt, m));
    assert!(!Type::is_subtype(&a_bool_opt, &a_bool, m));
    assert!(!Type::is_subtype(&ab, &a_bool, m));
    assert!(!Type::is_subtype(&a_bool, &ab, m));
    assert!(Type::is_subtype(&a_bool, &a_bool_open, m));
    assert!(!Type::is_subtype(&a_bool_open, &a_bool, m));
}

#[test]
fn records_with_attributes_in_any_order_are_the_same_type() {
    let one = closed(vec![attr("b", Type::String, false), attr("a", Type::Long, true)]);
    let two = closed(vec![attr("a", Type::Long, true), attr("b", Type::String, false)]);
    assert!(one.same_as(&two));
    assert_eq!(one, two);
    assert!(Type::is_subtype(&one, &two, ValidationMode::Strict));
    assert_eq!(one.to_string(), "{a: Long, b?: String}");
}

#[test]
fn of_attributes_with_one_name_the_first_counts() {
    let t = closed(vec![attr("a", Type::Long, true), attr("a", Type::String, true)]);
    assert_eq!(t, closed(vec![attr("a", Type::Long, true)]));
}

#[test]
fn record_least_upper_bound() {
    let m = ValidationMode::Strict;
    let x = closed(vec![attr("a", Type::True, true), attr("b", Type::Long, false)]);
    let y = open(vec![attr("b", Type::Long, false), attr("a", Type::False, true)]);
    assert_eq!(
        Type::least_upper_bound(&x, &y, m),
        Ok(open(vec![attr("a", Type::Boolean, true), attr("b", Type::Long, false)]))
    );
    let z = closed(vec![attr("a", Type::False, true), attr("b", Type::Long, false)]);
    assert_eq!(
        Type::least_upper_bound(&x, &z, m),
        Ok(closed(vec![attr("a", Type::Boolean, true), attr("b", Type::Long, false)]))
    );
}

#[test]
fn record_least_upper_bound_failures_name_their_reason() {
    let m = ValidationMode::Strict;
    let a = closed(vec![attr("a", Type::Long, true)]);
    let a_opt = closed(vec![attr("a", Type::Long, false)]);
    let b = closed(vec![attr("b", Type::Long, true)]);
    let ab = closed(vec![attr("a", Type::Long, true), attr("b", Type::Long, true)]);
    let a_string = closed(vec![attr("a", Type::String, true)]);
    let a_user = closed(vec![attr("a", entity("User"), true)]);
    let a_admin = closed(vec![attr("a", entity("Admin"), true)]);
    assert_eq!(Type::least_upper_bound(&a, &a_opt, m), Err(LubHelp::AttributeQualifier));
    assert_eq!(Type::least_upper_bound(&a, &b, m), Err(LubHelp::RecordWidth));
    assert_eq!(Type::least_upper_bound(&a, &ab, m), Err(LubHelp::RecordWidth));
    assert_eq!(Type::least_upper_bound(&a, &a_string, m), Err(LubHelp::NoHelp));
    assert_eq!(Type::least_upper_bound(&a_user, &a_admin, m), Err(LubHelp::EntityType));
    assert_eq!(Type::least_upper_bound(&a, &entity("User"), m), Err(LubHelp::EntityRecord));
    assert_eq!(Type::least_upper_bound(&Type::AnyEntity, &a, m), Err(LubHelp::EntityRecord));
}

#[test]
fn the_first_attribute_without_a_bound_gives_the_reason() {
    let m = ValidationMode::Strict;
    let x = closed(vec![attr("a", Type::Long, true), attr("b", entity("User"), true)]);
    let y = closed(vec![attr("a", Type::Long, false), attr("b", entity("Admin"), true)]);
    assert_eq!(Type::least_upper_bound(&x, &y, m), Err(LubHelp::AttributeQualifier));
    let x = closed(vec![attr("a", entity("User"), true), attr("b", Type::Long, true)]);
    let y = closed(vec![attr("a", entity("Admin"), true), attr("b", Type::Long, false)]);
    assert_eq!(Type::least_upper_bound(&x, &y, m), Err(LubHelp::EntityType));
}

#[test]
fn entity_subtyping_is_inclusion_under_permissive_and_equality_under_strict() {
    let user = entity("User");
    let both = entities(&["User", "Admin"]);
    assert!(Type::is_subtype(&user, &both, ValidationMode::Permissive));
    assert!(!Type::is_subtype(&both, &user, ValidationMode::Permissive));
    assert!(!Type::is_subtype(&user, &both, ValidationMode::Strict));
    assert!(Type::is_subtype(&user, &user, ValidationMode::Strict));
    assert!(!Type::is_subtype(&user, &entity("Admin"), ValidationMode::Permissive));
    assert!(Type::is_subtype(&user, &Type::AnyEntity, ValidationMode::Permissive));
    assert!(!Type::is_subtype(&user, &Type::AnyEntity, ValidationMode::Strict));
    assert!(!Type::is_subtype(&Type::AnyEntity, &user, ValidationMode::Permissive));
}

#[test]
fn entity_least_upper_bound_is_the_union_under_permissive() {
    let user = entity("User");
    let admin = entity("Admin");
    assert_eq!(
        Type::least_upper_bound(&user, &admin, ValidationMode::Permissive),
        Ok(entities(&["Admin", "User"]))
    );
    assert_eq!(
        Type::least_upper_bound(&admin, &user, ValidationMode::Permissive),
        Ok(entities(&["Admin", "User"]))
    );
    assert_eq!(
        Type::least_upper_bound(&user, &admin, ValidationMode::Strict),
        Err(LubHelp::EntityType)
    );
    assert_eq!(
        Type::least_upper_bound(&user, &user, ValidationMode::Strict),
        Ok(entity("User"))
    );
    assert_eq!(
        Type::least_upper_bound(&user, &Type::AnyEntity, ValidationMode::Permissive),
        Ok(Type::AnyEntity)
    );
    assert_eq!(
        Type::least_upper_bound(&user, &Type::AnyEntity, ValidationMode::Strict),
        Err(LubHelp::EntityType)
    );
    let action = Type::ActionEntity(EntityLUB::single_entity("Action".to_string()));
    assert_eq!(
        Type::least_upper_bound(&user, &action, ValidationMode::Permissive),
        Ok(Type::AnyEntity)
    );
}

#[test]
fn the_union_of_entity_types_is_ordered_and_without_repetition() {
    let a = EntityLUB::single_entity("B".to_string())
        .union(&EntityLUB::single_entity("D".to_string()));
    let b = EntityLUB::single_entity("C".to_string())
        .union(&EntityLUB::single_entity("A".to_string()))
        .union(&EntityLUB::single_entity("D".to_string()));
    let u = a.union(&b);
    assert_eq!(u.names, vec!["A", "B", "C", "D"]);
    assert_eq!(b.union(&a).names, vec!["A", "B", "C", "D"]);
    assert!(a.is_subset(&u));
    assert!(b.is_subset(&u));
    assert!(!u.is_subset(&a));
    assert!(u.contains(&"C".to_string()));
    assert!(!a.contains(&"C".to_string()));
    assert_eq!(a.get_single_entity(), None);
    assert_eq!(
        EntityLUB::single_entity("A".to_string()).get_single_entity(),
        Some(&"A".to_string())
    );
}

#[test]
fn names_are_ordered_by_code_point() {
    let u = EntityLUB::single_entity("b".to_string())
        .union(&EntityLUB::single_entity("B".to_string()))
        .union(&EntityLUB::single_entity("a".to_string()))
        .union(&EntityLUB::single_entity("ab".to_string()))
        .union(&EntityLUB::single_entity("é".to_string()));
    assert_eq!(u.names, vec!["B", "a", "ab", "b", "é"]);
}

#[test]
fn extension_types_are_compatible_with_themselves_only() {
    let m = ValidationMode::Strict;
    let ip = Type::Extension("ipaddr".to_string());
    let dec = Type::Extension("decimal".to_string());
    assert!(Type::is_subtype(&ip, &ip, m));
    assert!(!Type::is_subtype(&ip, &dec, m));
    assert_eq!(Type::least_upper_bound(&ip, &ip, m), Ok(ip.clone()));
    assert_eq!(Type::least_upper_bound(&ip, &dec, m), Err(LubHelp::NoHelp));
}

#[test]
fn types_read_in_messages() {
    assert_eq!(Type::Never.to_string(), "Never");
    assert_eq!(Type::True.to_string(), "True");
    assert_eq!(Type::False.to_string(), "False");
    assert_eq!(Type::Boolean.to_string(), "Bool");
    assert_eq!(Type::Long.to_string(), "Long");
    assert_eq!(Type::String.to_string(), "String");
    assert_eq!(Type::set(Type::set(Type::Long)).to_string(), "Set<Set<Long>>");
    assert_eq!(closed(vec![]).to_string(), "{}");
    assert_eq!(open(vec![]).to_string(), "{..}");
    assert_eq!(
        open(vec![attr("x", entity("User"), true)]).to_string(),
        "{x: User, ..}"
    );
    assert_eq!(entity("NS::User").to_string(), "NS::User");
    assert_eq!(entities(&["User", "Admin"]).to_string(), "Admin | User");
    assert_eq!(Type::AnyEntity.to_string(), "AnyEntity");
    assert_eq!(Type::Extension("ipaddr".to_string()).to_string(), "ipaddr");
}

#[test]
fn copies_of_types_are_the_same_type() {
    for t in samples() {
        assert_eq!(t.clone(), t);
        assert!(t.clone().same_as(&t));
    }
    let all = samples();
    for (i, a) in all.iter().enumerate() {
        for (j, b) in all.iter().enumerate() {
            assert_eq!(a.same_as(b), i == j, "{:?} {:?}", a, b);
        }
    }
}

#[test]
fn qualified_names_are_ordered_by_base_name_and_then_by_namespace() {
    let set = |names: &[&str]| {
        let mut lub = EntityLUB::single_entity(names[0].to_string());
        for n in &names[1..] {
            lub = lub.union(&EntityLUB::single_entity(n.to_string()));
        }
        lub.names
    };
    assert_eq!(set(&["A::B", "Z::A"]), vec!["Z::A", "A::B"]);
    assert_eq!(set(&["A1::X", "A::X"]), vec!["A::X", "A1::X"]);
    assert_eq!(
        set(&["N::M::User", "User", "N::User", "M::User", "N::Admin", "N::A::User"]),
        vec!["N::Admin", "User", "M::User", "N::User", "N::A::User", "N::M::User"]
    );
    assert_eq!(set(&["A::B", "A::B"]), vec!["A::B"]);
    assert_eq!(
        cedar_policy_validator::text::name_components("A::B::C"),
        vec!["A", "B", "C"]
    );
    assert_eq!(cedar_policy_validator::text::name_components("A"), vec!["A"]);
    assert_eq!(cedar_policy_validator::text::name_components(""), vec![""]);
    assert_eq!(
        cedar_policy_validator::text::name_key_of("A::B::C"),
        vec!["C", "A", "B"]
    );
    assert!(cedar_policy_validator::text::name_before("Z::A", "A::B"));
    assert!(!cedar_policy_validator::text::name_before("A::B", "A::B"));
}
