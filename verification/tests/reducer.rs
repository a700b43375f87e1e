use rtic_code_skeleton::reducer::model::{
    AppModule, Attr, CfgPredicate, KeptNode, Node, Part, Position, PredicateForm, ReduceError,
    ReduceErrorKind,
};
use rtic_code_skeleton::reducer::features::{
    reduce_by_features, FeatureAttr, FeatureNode, FeaturePosition, FeaturePredicate,
};
use rtic_code_skeleton::reducer::reduce;

fn feature(at: u64, name: &str) -> CfgPredicate {
    CfgPredicate {
        at,
        form: PredicateForm::Feature(name.to_string()),
    }
}

fn cfg(at: u64, predicate: CfgPredicate) -> Attr {
    Attr::Cfg { at, predicate }
}

/// An element with its nesting depth: the elements right after it that
/// are one level deeper form the list nested in it.
struct Flat {
    node: Node,
    depth: usize,
}

fn node(at: u64, position: Position, depth: usize, attrs: Vec<Attr>) -> Flat {
    Flat {
        node: Node {
            at,
            position,
            attrs,
            parts: vec![],
        },
        depth,
    }
}

fn nest(flat: &mut std::iter::Peekable<std::vec::IntoIter<Flat>>, depth: usize) -> Vec<Node> {
    let mut members = Vec::new();
    while flat.peek().map_or(false, |f| f.depth == depth) {
        let mut element = flat.next().unwrap().node;
        if flat.peek().map_or(false, |f| f.depth > depth) {
            let nested = nest(flat, depth + 1);
            element.parts.push(Part::Nested {
                between: vec![],
                members: nested,
            });
        }
        members.push(element);
    }
    members
}

fn module(nodes: Vec<Flat>) -> AppModule {
    AppModule {
        at: 0,
        content: Some(nest(&mut nodes.into_iter().peekable(), 0)),
    }
}

fn kept_tags(kept: &[KeptNode]) -> Vec<u64> {
    kept.iter().map(|k| k.at).collect()
}

#[test]
fn rejects_unknown_predicates_instead_of_silently_dropping_code() {
    // mod app { #[cfg(any(feature = "f401", target_os = "none"))] fn task() {} }
    let task = node(
        1,
        Position::Gated,
        0,
        vec![cfg(
            2,
            CfgPredicate {
                at: 3,
                form: PredicateForm::Any(vec![
                    feature(4, "f401"),
                    CfgPredicate {
                        at: 5,
                        form: PredicateForm::Unsupported,
                    },
                ]),
            },
        )],
    );
    assert!(reduce("f401", None, &vec![], &module(vec![task])).is_err());
}

#[test]
fn reduces_init_statements_and_removes_true_field_cfg() {
    // mod app {
    //     struct Shared { #[cfg(feature = "f405")] value: u32 }
    //     fn init() {
    //         #[cfg(feature = "f405")] let value = 1;
    //         #[cfg(feature = "f411")] let unavailable = absent();
    //         Shared { #[cfg(feature = "f405")] value };
    //     }
    // }
    let nodes = vec![
        node(10, Position::Gated, 0, vec![]),
        node(11, Position::Gated, 1, vec![cfg(12, feature(13, "f405"))]),
        node(20, Position::Gated, 0, vec![]),
        node(21, Position::Gated, 1, vec![cfg(22, feature(23, "f405"))]),
        node(24, Position::Gated, 1, vec![cfg(25, feature(26, "f411"))]),
        node(27, Position::Fixed, 2, vec![]),
        node(28, Position::Fixed, 1, vec![]),
        node(29, Position::Gated, 2, vec![cfg(30, feature(31, "f405"))]),
    ];
    let kept = reduce("f405", None, &vec![], &module(nodes)).unwrap();
    let tags = kept_tags(&kept);
    assert_eq!(tags, vec![10, 11, 20, 21, 28, 29]);
    // No cfg attribute survives: every kept element keeps no attribute here.
    assert!(kept.iter().all(|k| k.attrs.is_empty()));
    // The `absent()` call (27) went with its statement.
    assert!(!tags.contains(&27));
    // The `let value` statement (21) stays.
    assert!(tags.contains(&21));
}

#[test]
fn rejects_incompatible_or_unknown_system() {
    let empty = module(vec![]);
    assert!(reduce("f405", Some("system-nucleo-f401re"), &vec![], &empty).is_err());
    assert!(reduce("f401", Some("system-unknown"), &vec![], &empty).is_err());
}

#[test]
fn unknown_chip_and_declared_module_are_refused() {
    let empty = module(vec![]);
    assert_eq!(
        reduce("f407", None, &vec![], &empty).err(),
        Some(vec![ReduceError {
            kind: ReduceErrorKind::UnknownChip,
            at: 0
        }])
    );
    let declared = AppModule {
        at: 7,
        content: None,
    };
    assert_eq!(
        reduce("f401", None, &vec![], &declared).err(),
        Some(vec![ReduceError {
            kind: ReduceErrorKind::NotInline,
            at: 7
        }])
    );
    assert_eq!(
        reduce("f405", Some("system-nucleo-f401re"), &vec![], &empty).err(),
        Some(vec![ReduceError {
            kind: ReduceErrorKind::SystemMismatch,
            at: 0
        }])
    );
    assert!(reduce("f401", Some("system-nucleo-f401re"), &vec![], &empty).is_ok());
    assert!(reduce("f405", Some("system-default-f405"), &vec![], &empty).is_ok());
}

#[test]
fn system_features_select_only_the_selected_system() {
    // Two tasks: one for the Nucleo system, one for chip-only F401 builds.
    let nodes = vec![
        node(1, Position::Gated, 0, vec![cfg(2, feature(3, "system-nucleo-f401re"))]),
        node(
            4,
            Position::Gated,
            0,
            vec![cfg(
                5,
                CfgPredicate {
                    at: 6,
                    form: PredicateForm::Not(vec![feature(7, "system-nucleo-f401re")]),
                },
            )],
        ),
    ];
    let with_system = reduce("f401", Some("system-nucleo-f401re"), &vec![], &module(nodes)).unwrap();
    assert_eq!(kept_tags(&with_system), vec![1]);

    let nodes = vec![
        node(1, Position::Gated, 0, vec![cfg(2, feature(3, "system-nucleo-f401re"))]),
        node(
            4,
            Position::Gated,
            0,
            vec![cfg(
                5,
                CfgPredicate {
                    at: 6,
                    form: PredicateForm::Not(vec![feature(7, "system-nucleo-f401re")]),
                },
            )],
        ),
    ];
    let chip_only = reduce("f401", None, &vec![], &module(nodes)).unwrap();
    assert_eq!(kept_tags(&chip_only), vec![4]);
}

#[test]
fn compound_predicates_follow_all_any_not() {
    // #[cfg(all(feature = "f405", not(feature = "f401")))] and
    // #[cfg(any(feature = "f411", all(feature = "f401", not(feature = "system-nucleo-f401re"))))]
    let make = || {
        vec![
            node(
                1,
                Position::Gated,
                0,
                vec![cfg(
                    2,
                    CfgPredicate {
                        at: 3,
                        form: PredicateForm::All(vec![
                            feature(4, "f405"),
                            CfgPredicate {
                                at: 5,
                                form: PredicateForm::Not(vec![feature(6, "f401")]),
                            },
                        ]),
                    },
                )],
            ),
            node(
                10,
                Position::Gated,
                0,
                vec![cfg(
                    11,
                    CfgPredicate {
                        at: 12,
                        form: PredicateForm::Any(vec![
                            feature(13, "f411"),
                            CfgPredicate {
                                at: 14,
                                form: PredicateForm::All(vec![
                                    feature(15, "f401"),
                                    CfgPredicate {
                                        at: 16,
                                        form: PredicateForm::Not(vec![feature(
                                            17,
                                            "system-nucleo-f401re",
                                        )]),
                                    },
                                ]),
                            },
                        ]),
                    },
                )],
            ),
        ]
    };
    assert_eq!(kept_tags(&reduce("f405", None, &vec![], &module(make())).unwrap()), vec![1]);
    assert_eq!(kept_tags(&reduce("f411", None, &vec![], &module(make())).unwrap()), vec![10]);
    assert_eq!(kept_tags(&reduce("f401", None, &vec![], &module(make())).unwrap()), vec![10]);
    assert_eq!(
        kept_tags(&reduce("f401", Some("system-nucleo-f401re"), &vec![], &module(make())).unwrap()),
        Vec::<u64>::new()
    );
}

#[test]
fn not_requires_exactly_one_predicate() {
    let nodes = vec![node(
        1,
        Position::Gated,
        0,
        vec![cfg(
            2,
            CfgPredicate {
                at: 3,
                form: PredicateForm::Not(vec![feature(4, "f401"), feature(5, "f405")]),
            },
        )],
    )];
    assert_eq!(
        reduce("f401", None, &vec![], &module(nodes)).err(),
        Some(vec![ReduceError {
            kind: ReduceErrorKind::NotArity,
            at: 3
        }])
    );
}

#[test]
fn cfg_attr_and_misplaced_cfg_fail_closed() {
    // A cfg_attr on an item is reported when selecting it and again when
    // inspecting it; a cfg on an expression is reported where it stands.
    let nodes = vec![
        node(1, Position::Gated, 0, vec![Attr::CfgAttr { at: 2 }]),
        node(3, Position::Fixed, 1, vec![cfg(4, feature(5, "f401"))]),
    ];
    assert_eq!(
        reduce("f401", None, &vec![], &module(nodes)).err(),
        Some(vec![
            ReduceError {
                kind: ReduceErrorKind::CfgAttrUnsupported,
                at: 2
            },
            ReduceError {
                kind: ReduceErrorKind::CfgPosition,
                at: 2
            },
            ReduceError {
                kind: ReduceErrorKind::CfgPosition,
                at: 4
            },
        ])
    );
}

#[test]
fn removed_elements_take_their_contents_unseen() {
    // A removed module holds a misplaced cfg that is never inspected, and
    // its plain attributes are dropped with it.
    let nodes = vec![
        node(1, Position::Module, 0, vec![cfg(2, feature(3, "f411")), Attr::Other { at: 9 }]),
        node(4, Position::Fixed, 1, vec![cfg(5, feature(6, "f401"))]),
        node(7, Position::Gated, 2, vec![Attr::CfgAttr { at: 8 }]),
        node(10, Position::Gated, 0, vec![Attr::Other { at: 11 }]),
    ];
    let kept = reduce("f401", None, &vec![], &module(nodes)).unwrap();
    assert_eq!(kept_tags(&kept), vec![10]);
    assert_eq!(kept[0].attrs, vec![11]);
}

#[test]
fn unregistered_feature_is_refused_even_when_short_circuit_would_skip_it() {
    let nodes = vec![node(
        1,
        Position::Gated,
        0,
        vec![cfg(
            2,
            CfgPredicate {
                at: 3,
                form: PredicateForm::All(vec![
                    feature(4, "f405"),
                    feature(5, "board-x"),
                    CfgPredicate {
                        at: 6,
                        form: PredicateForm::Malformed,
                    },
                ]),
            },
        )],
    )];
    assert_eq!(
        reduce("f401", None, &vec![], &module(nodes)).err(),
        Some(vec![ReduceError {
            kind: ReduceErrorKind::UnsupportedPredicate,
            at: 5
        }])
    );
}

#[test]
fn surviving_module_keeps_plain_attributes_and_is_not_inspected() {
    let nodes = vec![
        node(1, Position::Module, 0, vec![cfg(2, feature(3, "f401")), Attr::Other { at: 4 }]),
        node(5, Position::Fixed, 1, vec![Attr::Other { at: 6 }]),
    ];
    let kept = reduce("f401", None, &vec![], &module(nodes)).unwrap();
    assert_eq!(kept_tags(&kept), vec![1, 5]);
    assert_eq!(kept[0].attrs, vec![4]);
    assert_eq!(kept[1].attrs, vec![6]);
}

fn fcfg(at: u64, args: Option<Vec<FeaturePredicate>>) -> FeatureAttr {
    FeatureAttr::Cfg { at, args }
}

fn fnode(at: u64, position: FeaturePosition, depth: usize, attrs: Vec<FeatureAttr>) -> FeatureNode {
    FeatureNode {
        at,
        position,
        depth,
        attrs,
    }
}

fn fname(name: &str) -> FeaturePredicate {
    FeaturePredicate::Feature(name.to_string())
}

#[test]
fn feature_reduction_is_lenient_and_strips_field_cfgs() {
    let features = vec!["f401".to_string()];
    let body = vec![
        // #[cfg(feature = "f405")] struct Gone { x: u32 }
        fnode(1, FeaturePosition::Item, 0, vec![fcfg(2, Some(vec![fname("f405")]))]),
        fnode(3, FeaturePosition::Field, 1, vec![]),
        // #[doc = ".."] #[cfg(not(feature = "f405"))] struct Kept { .. }
        fnode(
            4,
            FeaturePosition::Item,
            0,
            vec![
                FeatureAttr::Other { at: 5 },
                fcfg(6, Some(vec![FeaturePredicate::Not(Some(vec![fname("f405")]))])),
            ],
        ),
        // #[cfg(feature = "f401")] #[allow(unused)] a: u32,
        fnode(
            7,
            FeaturePosition::Field,
            1,
            vec![fcfg(8, Some(vec![fname("f401")])), FeatureAttr::Other { at: 9 }],
        ),
        // #[cfg] b: u32 (no list: holds)
        fnode(10, FeaturePosition::Field, 1, vec![fcfg(11, None)]),
        // #[cfg(feature = "unknown")] c: u32
        fnode(12, FeaturePosition::Field, 1, vec![fcfg(13, Some(vec![fname("unknown")]))]),
        // #[cfg(all(<unparsable>))] fn gone() {}
        fnode(14, FeaturePosition::Item, 0, vec![fcfg(15, Some(vec![FeaturePredicate::All(None)]))]),
        // #[cfg()] fn kept() {}
        fnode(16, FeaturePosition::Item, 0, vec![fcfg(17, Some(vec![]))]),
        // #[cfg(target_os = "none", feature = "f405")]: only the first predicate counts.
        fnode(
            18,
            FeaturePosition::Item,
            0,
            vec![fcfg(19, Some(vec![FeaturePredicate::Other, fname("f401")]))],
        ),
        // #[cfg(any(feature = "f405", feature = "f401"))] fn kept_any() {}
        fnode(
            20,
            FeaturePosition::Item,
            0,
            vec![fcfg(21, Some(vec![FeaturePredicate::Any(Some(vec![fname("f405"), fname("f401")]))]))],
        ),
    ];
    let kept = reduce_by_features(&features, &body);
    let views: Vec<(u64, Vec<u64>)> = kept.iter().map(|k| (k.at, k.attrs.clone())).collect();
    assert_eq!(
        views,
        vec![
            (4, vec![5, 6]),
            (7, vec![9]),
            (10, vec![]),
            (16, vec![17]),
            (20, vec![21]),
        ]
    );
}

#[test]
fn feature_reduction_keeps_a_cfg_free_body_whole() {
    let body = vec![
        fnode(1, FeaturePosition::Item, 0, vec![FeatureAttr::Other { at: 2 }]),
        fnode(3, FeaturePosition::Field, 1, vec![FeatureAttr::Other { at: 4 }]),
        fnode(5, FeaturePosition::Item, 0, vec![]),
    ];
    for features in [vec![], vec!["f405".to_string(), "sw-report".to_string()]] {
        let kept = reduce_by_features(&features, &body);
        let views: Vec<(u64, Vec<u64>)> = kept.iter().map(|k| (k.at, k.attrs.clone())).collect();
        assert_eq!(views, vec![(1, vec![2]), (3, vec![4]), (5, vec![])]);
    }
}

/// A hand-built model of the shared application skeleton's `mod app` body:
/// every element that carries a `cfg`, or that the assertions look for,
/// with the names its tokens would show.
struct Skeleton {
    nodes: Vec<Flat>,
    names: Vec<(u64, String)>,
    next: u64,
}

enum Pred {
    Feature(&'static str),
    Pin(&'static str),
    Periph(&'static str),
    All(Vec<Pred>),
    Any(Vec<Pred>),
    Not(Box<Pred>),
}

impl Skeleton {
    fn tag(&mut self) -> u64 {
        self.next += 1;
        self.next
    }

    fn predicate(&mut self, p: &Pred) -> CfgPredicate {
        let at = self.tag();
        let form = match p {
            Pred::Feature(name) => PredicateForm::Feature(name.to_string()),
            Pred::Pin(name) => PredicateForm::BoardPin(name.to_string()),
            Pred::Periph(name) => PredicateForm::BoardPeripheral(name.to_string()),
            Pred::All(args) => PredicateForm::All(args.iter().map(|a| self.predicate(a)).collect()),
            Pred::Any(args) => PredicateForm::Any(args.iter().map(|a| self.predicate(a)).collect()),
            Pred::Not(arg) => PredicateForm::Not(vec![self.predicate(arg)]),
        };
        CfgPredicate { at, form }
    }

    /// An element at `depth`: `before` plain attributes, then its `cfg` if
    /// any, then `after` plain attributes.
    fn element(&mut self, depth: usize, name: &str, before: usize, cfg: Option<Pred>, after: usize) {
        let at = self.tag();
        let mut attrs = Vec::new();
        for _ in 0..before {
            attrs.push(Attr::Other { at: self.tag() });
        }
        if let Some(p) = cfg {
            let cfg_at = self.tag();
            let predicate = self.predicate(&p);
            attrs.push(Attr::Cfg {
                at: cfg_at,
                predicate,
            });
        }
        for _ in 0..after {
            attrs.push(Attr::Other { at: self.tag() });
        }
        self.nodes.push(node(at, Position::Gated, depth, attrs));
        self.names.push((at, name.to_string()));
    }

    fn item(&mut self, name: &str, cfg: Option<Pred>) {
        self.element(0, name, 0, cfg, 1);
    }

    fn field(&mut self, depth: usize, name: &str, cfg: Option<Pred>) {
        self.element(depth, name, 0, cfg, 0);
    }

}

fn board_or_timer() -> Pred {
    Pred::Any(vec![Pred::Pin("led1"), Pred::Periph("tim3")])
}

fn skeleton() -> Skeleton {
    let mut s = Skeleton {
        nodes: Vec::new(),
        names: Vec::new(),
        next: 0,
    };
    s.element(0, "use crate::app_prelude::*", 0, None, 0);
    s.item("struct Shared", None);
    s.field(1, "counter: u32", None);
    s.field(1, "f405_shared: u32", Some(Pred::Feature("f405")));
    s.item("struct Local", None);
    s.field(1, "buffer: [u8; 32]", None);
    s.field(1, "f405_buffer: [u8; 4]", Some(Pred::Feature("f405")));
    for (name, pin) in [("led1", "led1"), ("led2", "led2"), ("led3", "led3")] {
        s.field(1, &format!("{name}: OutputPin"), Some(Pred::Pin(pin)));
    }
    s.field(1, "serial1: Usart1", Some(Pred::Periph("usart1")));
    s.field(1, "serial2: Usart2", Some(Pred::Periph("usart2")));
    s.field(1, "serial3: Usart6", Some(Pred::Periph("usart6")));
    s.field(1, "timer1: Tim3", Some(Pred::Periph("tim3")));
    s.field(1, "report_route_enabled: bool", Some(Pred::Periph("tim3")));
    s.field(1, "timer2: Tim5", Some(Pred::Periph("tim5")));
    s.field(1, "pwm_timer: Tim4", Some(Pred::Periph("tim4")));
    s.field(1, "pwm_output1: Tim4Ch1", Some(Pred::Pin("pwm1")));
    s.field(1, "pwm_output2: Tim4Ch2", Some(Pred::Pin("pwm2")));

    s.item("fn init", None);
    s.field(1, "let counter", None);
    s.field(1, "let f405_shared", Some(Pred::Feature("f405")));
    s.field(1, "let buffer", None);
    s.field(1, "let f405_buffer", Some(Pred::Feature("f405")));
    s.field(1, "let initialized = Board::new", Some(board_or_timer()));
    s.field(1, "let sysclk_hz = initialized.sysclk_hz", Some(board_or_timer()));
    s.field(1, "let rcc = RCC.freeze", Some(Pred::Not(Box::new(board_or_timer()))));
    s.field(1, "let sysclk_hz = rcc.clocks", Some(Pred::Not(Box::new(board_or_timer()))));
    s.field(1, "let Board { .. } = initialized.hardware", Some(board_or_timer()));
    s.field(
        1,
        "let report_route_enabled = true",
        Some(Pred::All(vec![Pred::Periph("tim3"), Pred::Feature("sw-report")])),
    );
    s.field(
        1,
        "let report_route_enabled = false",
        Some(Pred::All(vec![
            Pred::Periph("tim3"),
            Pred::Not(Box::new(Pred::Feature("sw-report"))),
        ])),
    );
    s.field(1, "blink::spawn()", Some(Pred::Pin("led1")));
    s.field(1, "start_pwm::spawn()", Some(Pred::Periph("tim4")));
    s.field(1, "let shared = Shared", None);
    s.field(2, "counter", None);
    s.field(2, "f405_shared", Some(Pred::Feature("f405")));
    s.field(1, "let local = Local", None);
    s.field(2, "buffer", None);
    s.field(2, "f405_buffer", Some(Pred::Feature("f405")));
    for pin in ["led1", "led2", "led3"] {
        s.field(2, pin, Some(Pred::Pin(pin)));
    }
    s.field(2, "serial1", Some(Pred::Periph("usart1")));
    s.field(2, "serial2", Some(Pred::Periph("usart2")));
    s.field(2, "serial3", Some(Pred::Periph("usart6")));
    s.field(2, "timer1", Some(Pred::Periph("tim3")));
    s.field(2, "report_route_enabled", Some(Pred::Periph("tim3")));
    s.field(2, "timer2", Some(Pred::Periph("tim5")));
    s.field(2, "pwm_timer", Some(Pred::Periph("tim4")));
    s.field(2, "pwm_output1", Some(Pred::Pin("pwm1")));
    s.field(2, "pwm_output2", Some(Pred::Pin("pwm2")));

    s.item("async fn blink", Some(Pred::Pin("led1")));
    s.item("fn report_timer_interrupt TIM3", Some(Pred::Periph("tim3")));
    s.field(1, "report::spawn()", Some(Pred::Feature("sw-report")));
    s.item("async fn report", Some(Pred::Feature("sw-report")));
    s.item("fn usart1 USART1 serial1", Some(Pred::Periph("usart1")));
    s.item("fn usart1 USART1", Some(Pred::Not(Box::new(Pred::Periph("usart1")))));
    s.item("fn serial2_interrupt USART2", Some(Pred::Periph("usart2")));
    s.item("fn serial3_interrupt USART6", Some(Pred::Periph("usart6")));
    s.item("fn timer2_interrupt TIM5", Some(Pred::Periph("tim5")));
    s.item("async fn start_pwm", Some(Pred::Periph("tim4")));
    s.item("fn f405_uart4 UART4", Some(Pred::Feature("f405")));
    s.item("fn f405_whole_task USART6", Some(Pred::Feature("f405")));
    s.item("fn f411_whole_control USART6", Some(Pred::Feature("f411")));
    s.element(0, "fn f405_header_task USART2", 1, Some(Pred::Feature("f405")), 0);
    s.element(0, "fn f411_header_control USART2", 1, Some(Pred::Feature("f411")), 0);
    s.item("fn f405_resource_task TIM4 f405_buffer", Some(Pred::Feature("f405")));
    s.item("fn f411_resource_control TIM4", Some(Pred::Feature("f411")));
    s.item(
        "fn f405_compound_task TIM5",
        Some(Pred::All(vec![
            Pred::Feature("f405"),
            Pred::Not(Box::new(Pred::Feature("f401"))),
        ])),
    );
    s.item(
        "fn non_f405_compound_control TIM5",
        Some(Pred::Any(vec![
            Pred::Feature("f411"),
            Pred::All(vec![
                Pred::Feature("f401"),
                Pred::Not(Box::new(Pred::Feature("system-nucleo-f401re"))),
            ]),
        ])),
    );
    s.item("async fn f405_software_task", Some(Pred::Feature("f405")));
    s
}

fn reduce_skeleton(chip: &str, system: Option<&str>, software: &[&str]) -> (Vec<String>, String) {
    let Skeleton { nodes, names, .. } = skeleton();
    let software: Vec<String> = software.iter().map(|f| f.to_string()).collect();
    let kept = reduce(chip, system, &software, &module(nodes)).unwrap();
    let names: Vec<String> = kept
        .iter()
        .map(|k| names.iter().find(|(at, _)| *at == k.at).unwrap().1.clone())
        .collect();
    let text = names.join(" ");
    (names, text)
}

fn count(names: &[String], name: &str) -> usize {
    names.iter().filter(|n| n.as_str() == name).count()
}

#[test]
fn reduces_real_skeleton_for_every_chip() {
    for chip in ["f401", "f405", "f411"] {
        let (names, tokens) = reduce_skeleton(chip, None, &[]);
        assert_eq!(count(&names, "fn init"), 1, "{chip}");
        assert_eq!(tokens.contains("f405_shared"), chip == "f405");
        assert_eq!(tokens.contains("f405_whole_task"), chip == "f405");
        assert_eq!(tokens.contains("f411_whole_control"), chip == "f411");
        assert!(
            !tokens.contains("fn blink"),
            "chip-only builds must not include system tasks"
        );
        assert!(!tokens.contains("Hardware"));
    }
}

#[test]
fn nucleo_selects_system_tasks_and_exactly_one_init() {
    let (names, tokens) = reduce_skeleton("f401", Some("system-nucleo-f401re"), &[]);
    assert!(tokens.contains("fn blink"));
    assert!(!tokens.contains("UART4"));
    assert_eq!(count(&names, "fn init"), 1);
}

#[test]
fn default_systems_keep_chip_tasks_without_nucleo_wiring() {
    for (system, chip) in [
        ("system-default-f401", "f401"),
        ("system-default-f405", "f405"),
        ("system-default-f411", "f411"),
    ] {
        let (names, tokens) = reduce_skeleton(chip, Some(system), &[]);
        assert_eq!(count(&names, "fn init"), 1, "{system}");
        assert!(!tokens.contains("Hardware"), "{system}");
        assert!(!tokens.contains("fn blink"), "{system}");
        assert_eq!(tokens.contains("UART4"), chip == "f405", "{system}");
    }
}

#[test]
fn nucleo_report_prototype_keeps_its_board_and_report_route() {
    let (names, tokens) =
        reduce_skeleton("f401", Some("system-nucleo-f401re"), &["sw-report"]);
    // Board wiring follows the Nucleo board's declaration.
    for name in [
        "led1: OutputPin",
        "serial1: Usart1",
        "timer1: Tim3",
        "pwm_output2: Tim4Ch2",
        "let initialized = Board::new",
        "blink::spawn()",
        "async fn start_pwm",
    ] {
        assert_eq!(count(&names, name), 1, "{name}");
    }
    assert_eq!(count(&names, "let rcc = RCC.freeze"), 0);
    // The software feature turns the report route on.
    assert_eq!(count(&names, "let report_route_enabled = true"), 1);
    assert_eq!(count(&names, "let report_route_enabled = false"), 0);
    assert!(tokens.contains("async fn report"));
    assert!(tokens.contains("report::spawn()"));
    // Exactly one USART1 handler survives, the one owning the port.
    assert_eq!(count(&names, "fn usart1 USART1 serial1"), 1);
    assert_eq!(count(&names, "fn usart1 USART1"), 0);
    assert_eq!(count(&names, "fn non_f405_compound_control TIM5"), 0);

    // Without the software feature the route is there but off.
    let (names, _) = reduce_skeleton("f401", Some("system-nucleo-f401re"), &[]);
    assert_eq!(count(&names, "let report_route_enabled = false"), 1);
    assert_eq!(count(&names, "async fn report"), 0);
}

#[test]
fn unregistered_board_names_and_software_are_refused() {
    let empty = module(vec![]);
    assert_eq!(
        reduce("f401", None, &vec!["sw-unknown".to_string()], &empty).err(),
        Some(vec![ReduceError {
            kind: ReduceErrorKind::UnknownSoftware,
            at: 0
        }])
    );
    let pin = node(
        1,
        Position::Gated,
        0,
        vec![cfg(
            2,
            CfgPredicate {
                at: 3,
                form: PredicateForm::BoardPin("led9".to_string()),
            },
        )],
    );
    assert_eq!(
        reduce("f401", Some("system-nucleo-f401re"), &vec![], &module(vec![pin])).err(),
        Some(vec![ReduceError {
            kind: ReduceErrorKind::UnsupportedPredicate,
            at: 3
        }])
    );
}

#[test]
fn errors_come_list_by_list() {
    // mod app {
    //     #[cfg_attr(x, y)] fn a() { #[cfg_attr(x, y)] let b = 1; }
    //     #[cfg_attr(x, y)] fn c() {}
    // }
    let nodes = vec![
        node(1, Position::Gated, 0, vec![Attr::CfgAttr { at: 2 }]),
        node(3, Position::Gated, 1, vec![Attr::CfgAttr { at: 4 }]),
        node(5, Position::Gated, 0, vec![Attr::CfgAttr { at: 6 }]),
    ];
    let error = |kind, at| ReduceError { kind, at };
    assert_eq!(
        reduce("f401", None, &vec![], &module(nodes)).err(),
        Some(vec![
            error(ReduceErrorKind::CfgAttrUnsupported, 2),
            error(ReduceErrorKind::CfgAttrUnsupported, 6),
            error(ReduceErrorKind::CfgPosition, 2),
            error(ReduceErrorKind::CfgAttrUnsupported, 4),
            error(ReduceErrorKind::CfgPosition, 4),
            error(ReduceErrorKind::CfgPosition, 6),
        ])
    );
}

#[test]
fn reducing_a_reduced_body_changes_nothing() {
    // mod app {
    //     #[cfg(feature = "f401")] #[inline] fn a() { #[cfg(feature = "f405")] let x = 1; }
    //     #[cfg(feature = "f405")] fn b() {}
    // }
    let body = vec![
        node(1, Position::Gated, 0, vec![cfg(2, feature(3, "f401")), Attr::Other { at: 4 }]),
        node(5, Position::Gated, 1, vec![cfg(6, feature(7, "f405"))]),
        node(8, Position::Gated, 0, vec![cfg(9, feature(10, "f405"))]),
    ];
    let once = reduce("f401", None, &vec![], &module(body)).unwrap();
    let views: Vec<(u64, Vec<u64>)> = once.iter().map(|k| (k.at, k.attrs.clone())).collect();
    assert_eq!(views, vec![(1, vec![4])]);
    // mod app { #[inline] fn a() {} }
    let reduced = vec![node(1, Position::Gated, 0, vec![Attr::Other { at: 4 }])];
    let twice = reduce("f401", None, &vec![], &module(reduced)).unwrap();
    let again: Vec<(u64, Vec<u64>)> = twice.iter().map(|k| (k.at, k.attrs.clone())).collect();
    assert_eq!(again, views);
}
