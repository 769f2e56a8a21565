use lyra::framework::event::Block;
use lyra::framework::event::BlockHeader;
use lyra::framework::Breadcrumbs;
use lyra::framework::ChainConfig;
use lyra::framework::ChainEvent;
use lyra::framework::Context;
use lyra::framework::IntersectConfig;
use lyra::framework::Point;
use lyra::framework::Record;
use lyra::runtime::WorkSchedule;
use lyra::runtime::WorkerError;
use lyra::sources;
use lyra::sources::cbor;
use lyra::sources::u5c;
use lyra::sources::u5c::Action;
use lyra::sources::u5c::AnyChainBlock;
use lyra::sources::u5c::BlockRef;
use lyra::sources::u5c::Chain;
use lyra::sources::u5c::Fetch;
use lyra::sources::u5c::StreamItem;

fn s(x: &str) -> String {
    x.to_string()
}

fn context(cursor: Breadcrumbs, intersect: IntersectConfig) -> Context {
    Context {
        current_dir: s("."),
        chain: ChainConfig::Mainnet,
        intersect,
        cursor,
        finalize: None,
        storage_type: s("Redis"),
    }
}

fn stage(cursor: Breadcrumbs, intersect: IntersectConfig, page: Option<u32>) -> u5c::Stage {
    u5c::Config { url: s("http://node"), max_items_per_page: page }
        .bootstrapper(&context(cursor, intersect))
        .unwrap()
}

fn block(slot: u64, tag: u8, body: bool) -> Block {
    Block {
        header: Some(BlockHeader { slot, hash: vec![tag, tag], height: slot / 2 }),
        body: if body { Some(vec![tag]) } else { None },
    }
}

fn wire(slot: u64, tag: u8) -> AnyChainBlock {
    AnyChainBlock { chain: Some(Chain::Cardano(block(slot, tag, true))) }
}

fn reference(slot: u64, tag: u8) -> BlockRef {
    BlockRef { index: slot, hash: vec![tag, tag] }
}

#[test]
fn point_to_blockref_skips_the_origin() {
    assert_eq!(u5c::point_to_blockref(Point::Origin), None);
    assert_eq!(
        u5c::point_to_blockref(Point::Specific(9, vec![1, 2])),
        Some(BlockRef { index: 9, hash: vec![1, 2] })
    );
}

#[test]
fn blockref_of_a_block_on_the_wire() {
    assert_eq!(u5c::any_chain_block_to_blockref(&wire(5, 7)), Some(reference(5, 7)));
    assert_eq!(u5c::any_chain_block_to_blockref(&AnyChainBlock { chain: None }), None);
    assert_eq!(
        u5c::any_chain_block_to_blockref(&AnyChainBlock { chain: Some(Chain::Raw(vec![1])) }),
        None
    );
    let headless = AnyChainBlock {
        chain: Some(Chain::Cardano(Block { header: None, body: Some(vec![]) })),
    };
    assert_eq!(u5c::any_chain_block_to_blockref(&headless), None);
}

#[test]
fn bootstrap_offers_every_point_of_the_cursor() {
    let cursor = Breadcrumbs::from_points(vec![
        Point::Origin,
        Point::Specific(30, vec![3, 3]),
        Point::Specific(20, vec![2, 2]),
        Point::Specific(10, vec![1, 1]),
    ]);
    let st = stage(cursor, IntersectConfig::Point(1, s("0101")), Some(50));
    let worker = u5c::Worker::bootstrap(&st);
    assert_eq!(worker.candidates, vec![reference(30, 3), reference(20, 2), reference(10, 1)]);
    assert_eq!(worker.intersect, Some(reference(30, 3)));
    assert_eq!(worker.max_items_per_page, 50);
}

#[test]
fn bootstrap_does_not_read_the_policy_where_the_cursor_holds_a_point() {
    let cursor = Breadcrumbs::from_points(vec![Point::Specific(30, vec![3, 3])]);
    let st = stage(cursor, IntersectConfig::Point(1, s("x")), None);
    let worker = u5c::Worker::bootstrap(&st);
    assert_eq!(worker.candidates, vec![reference(30, 3)]);
    assert_eq!(worker.intersect, Some(reference(30, 3)));
}

#[test]
fn bootstrap_falls_back_to_the_configured_intersection() {
    let st = stage(Breadcrumbs::new(), IntersectConfig::Point(1, s("0101")), None);
    let worker = u5c::Worker::bootstrap(&st);
    assert_eq!(worker.intersect, Some(reference(1, 1)));
    assert_eq!(worker.candidates, vec![reference(1, 1)]);
    assert_eq!(worker.max_items_per_page, 20);
    assert_eq!(u5c::DEFAULT_ITEMS_PER_PAGE, 20);
    let st = stage(
        Breadcrumbs::new(),
        IntersectConfig::Breadcrumbs(vec![(8, s("0808")), (4, s("0404"))]),
        None,
    );
    let worker = u5c::Worker::bootstrap(&st);
    assert_eq!(worker.intersect, Some(reference(8, 8)));
    assert_eq!(worker.candidates, vec![reference(8, 8), reference(4, 4)]);
    for policy in [IntersectConfig::Tip, IntersectConfig::Origin, IntersectConfig::Breadcrumbs(vec![])] {
        let st = stage(Breadcrumbs::new(), policy, None);
        let worker = u5c::Worker::bootstrap(&st);
        assert_eq!(worker.intersect, None);
        assert_eq!(worker.candidates, vec![]);
    }
}

#[test]
fn schedule_dumps_history_before_the_threshold() {
    let worker = u5c::Worker {
        intersect: Some(reference(130_999_999, 1)),
        candidates: vec![reference(5, 5), reference(4, 4)],
        max_items_per_page: 33,
    };
    match worker.schedule() {
        Fetch::DumpHistory { start_token, max_items } => {
            assert_eq!(start_token, Some(reference(130_999_999, 1)));
            assert_eq!(max_items, 33);
        }
        other => panic!("{:?}", other),
    }
}

#[test]
fn schedule_follows_the_tip_with_every_candidate() {
    let worker = u5c::Worker {
        intersect: Some(reference(131_000_000, 1)),
        candidates: vec![reference(131_000_000, 1), reference(5, 5), reference(4, 4)],
        max_items_per_page: 33,
    };
    match worker.schedule() {
        Fetch::FollowTip { intersect } => assert_eq!(
            intersect,
            vec![reference(131_000_000, 1), reference(5, 5), reference(4, 4)]
        ),
        other => panic!("{:?}", other),
    }
    let worker = u5c::Worker { intersect: None, candidates: vec![], max_items_per_page: 1 };
    match worker.schedule() {
        Fetch::FollowTip { intersect } => assert_eq!(intersect, vec![]),
        other => panic!("{:?}", other),
    }
    let cursor = Breadcrumbs::from_points(vec![
        Point::Specific(200_000_000, vec![2, 2]),
        Point::Specific(199_999_999, vec![1, 1]),
    ]);
    let st = stage(cursor, IntersectConfig::Tip, None);
    match u5c::Worker::bootstrap(&st).schedule() {
        Fetch::FollowTip { intersect } => assert_eq!(
            intersect,
            vec![reference(200_000_000, 2), reference(199_999_999, 1)]
        ),
        other => panic!("{:?}", other),
    }
}

#[test]
fn a_page_of_history_is_applied_in_order() {
    let mut worker = u5c::Worker {
        intersect: Some(reference(1, 1)),
        candidates: vec![reference(1, 1), reference(0, 0)],
        max_items_per_page: 20,
    };
    let page = vec![wire(2, 2), wire(3, 3), wire(4, 4)];
    match worker.next_dump_history(page, Some(reference(4, 9))) {
        WorkSchedule::Unit(actions) => {
            assert_eq!(actions.len(), 3);
            for (i, a) in actions.iter().enumerate() {
                match a {
                    Action::Apply(b) => assert_eq!(
                        u5c::any_chain_block_to_blockref(b),
                        Some(reference(i as u64 + 2, i as u8 + 2))
                    ),
                    other => panic!("{:?}", other),
                }
            }
        }
        other => panic!("{:?}", other),
    }
    assert_eq!(worker.intersect, Some(reference(4, 9)));
    assert_eq!(worker.candidates, vec![reference(4, 4)]);
    assert_eq!(worker.max_items_per_page, 20);
}

#[test]
fn an_empty_page_asks_to_wait() {
    let mut worker = u5c::Worker {
        intersect: Some(reference(1, 1)),
        candidates: vec![reference(1, 1), reference(0, 0)],
        max_items_per_page: 20,
    };
    assert!(matches!(worker.next_dump_history(vec![], None), WorkSchedule::Idle));
    assert_eq!(worker.intersect, None);
    assert_eq!(worker.candidates, vec![]);
}

#[test]
fn the_stream_decides_the_schedule() {
    assert!(matches!(u5c::Worker::next_stream(StreamItem::End), Ok(WorkSchedule::Idle)));
    assert!(matches!(u5c::Worker::next_stream(StreamItem::Failed), Err(WorkerError::Retry)));
    assert!(matches!(
        u5c::Worker::next_stream(StreamItem::Response(None)),
        Ok(WorkSchedule::Idle)
    ));
    match u5c::Worker::next_stream(StreamItem::Response(Some(Action::Reset(reference(3, 3))))) {
        Ok(WorkSchedule::Unit(actions)) => {
            assert_eq!(actions.len(), 1);
            assert!(matches!(&actions[0], Action::Reset(r) if *r == reference(3, 3)));
        }
        other => panic!("{:?}", other),
    }
}

#[test]
fn a_fresh_block_is_applied_at_its_point() {
    let mut st = stage(Breadcrumbs::new(), IntersectConfig::Tip, None);
    let event = st.process_next(&Action::Apply(wire(12, 4))).unwrap();
    match event {
        ChainEvent::Apply(p, Record::UtxoRpcBlockPayload(b)) => {
            assert_eq!(p, Point::Specific(12, vec![4, 4]));
            assert_eq!(b.point(), Some(Point::Specific(12, vec![4, 4])));
            assert_eq!(b.body, Some(vec![4]));
        }
        other => panic!("{:?}", other),
    }
    assert_eq!(st.chain_tip, 12);
}

#[test]
fn the_block_at_the_front_of_the_cursor_is_left_out_once() {
    let cursor = Breadcrumbs::from_points(vec![
        Point::Specific(12, vec![4, 4]),
        Point::Specific(11, vec![3, 3]),
    ]);
    let mut st = stage(cursor, IntersectConfig::Tip, None);
    assert!(!st.skipped);
    assert!(st.process_next(&Action::Apply(wire(12, 5))).is_some());
    assert!(st.process_next(&Action::Apply(wire(11, 3))).is_some());
    assert!(!st.skipped);
    assert_eq!(st.chain_tip, 11);
    assert!(st.process_next(&Action::Apply(wire(12, 4))).is_none());
    assert!(st.skipped);
    assert_eq!(st.chain_tip, 11);
    assert!(st.process_next(&Action::Undo(wire(12, 4))).is_some());
    let again = st.process_next(&Action::Apply(wire(12, 4))).unwrap();
    assert!(matches!(again, ChainEvent::Apply(p, _) if p == Point::Specific(12, vec![4, 4])));
    assert!(st.skipped);
    assert_eq!(st.chain_tip, 12);
    assert_eq!(st.cursor.to_points().len(), 2);
}

#[test]
fn an_undo_is_passed_on_even_at_the_front_of_the_cursor() {
    let cursor = Breadcrumbs::from_points(vec![Point::Specific(12, vec![4, 4])]);
    let mut st = stage(cursor, IntersectConfig::Tip, None);
    let event = st.process_next(&Action::Undo(wire(12, 4))).unwrap();
    assert!(matches!(event, ChainEvent::Undo(p, Record::UtxoRpcBlockPayload(_)) if p == Point::Specific(12, vec![4, 4])));
    assert_eq!(st.chain_tip, 12);
    assert!(!st.skipped);
}

#[test]
fn blocks_without_body_or_of_another_chain_are_skipped() {
    let mut st = stage(Breadcrumbs::new(), IntersectConfig::Tip, None);
    let bodyless = AnyChainBlock { chain: Some(Chain::Cardano(block(5, 5, false))) };
    assert!(st.process_next(&Action::Apply(AnyChainBlock { chain: None })).is_none());
    assert!(st
        .process_next(&Action::Undo(AnyChainBlock { chain: Some(Chain::Raw(vec![1, 2])) }))
        .is_none());
    assert!(st.process_next(&Action::Apply(bodyless)).is_none());
    assert_eq!(st.chain_tip, 0);
}

#[test]
fn a_reset_is_passed_on() {
    let mut st = stage(Breadcrumbs::new(), IntersectConfig::Tip, None);
    let event = st.process_next(&Action::Reset(reference(77, 7))).unwrap();
    assert!(matches!(event, ChainEvent::Reset(p) if p == Point::Specific(77, vec![7, 7])));
    assert_eq!(st.chain_tip, 77);
}

#[test]
fn replay_takes_the_files_in_order() {
    let mut worker = cbor::Worker::bootstrap(vec![s("a/001.block"), s("a/002.undo.block")]);
    assert_eq!(worker.schedule(), Some(s("a/001.block")));
    assert_eq!(worker.schedule(), Some(s("a/002.undo.block")));
    assert_eq!(worker.schedule(), None);
    assert_eq!(worker.schedule(), None);
    assert_eq!(worker.index, 2);
}

#[test]
fn replay_tells_undo_by_the_file_name() {
    assert_eq!(cbor::Worker::action("001.block", "00ff"), cbor::Action::Apply(vec![0, 255]));
    assert_eq!(cbor::Worker::action("001-undo.block", "00ff"), cbor::Action::Undo(vec![0, 255]));
    assert_eq!(cbor::Worker::action("undo", ""), cbor::Action::Undo(vec![]));
    assert_eq!(cbor::Worker::action("Undo", "AB"), cbor::Action::Apply(vec![0xab]));
    assert_eq!(cbor::Worker::action("und", "AB"), cbor::Action::Apply(vec![0xab]));
    assert_eq!(cbor::Worker::action("", "AB"), cbor::Action::Apply(vec![0xab]));
}

#[test]
fn replayed_blocks_become_events() {
    let mut st = cbor::Config { dir: s("blocks") }
        .bootstrapper(&context(Breadcrumbs::new(), IntersectConfig::Tip))
        .unwrap();
    let apply = cbor::Action::Apply(vec![1]);
    let undo = cbor::Action::Undo(vec![1]);
    let event = st.execute(&apply, block(9, 1, true)).unwrap();
    assert!(matches!(event, ChainEvent::Apply(p, Record::UtxoRpcBlockPayload(_)) if p == Point::Specific(9, vec![1, 1])));
    assert_eq!(st.chain_tip, 9);
    let event = st.execute(&undo, block(8, 2, true)).unwrap();
    assert!(matches!(event, ChainEvent::Undo(p, Record::UtxoRpcBlockPayload(_)) if p == Point::Specific(8, vec![2, 2])));
    assert_eq!(st.chain_tip, 8);
    assert!(st.execute(&apply, block(7, 3, false)).is_none());
    assert!(st.execute(&apply, Block { header: None, body: None }).is_none());
    assert_eq!(st.chain_tip, 8);
}

#[test]
fn source_config_by_type() {
    let ctx = context(
        Breadcrumbs::from_points(vec![Point::Specific(1, vec![1])]),
        IntersectConfig::Origin,
    );
    let config = sources::Config::U5C(u5c::Config { url: s("u"), max_items_per_page: None });
    match config.bootstrapper(&ctx).unwrap() {
        sources::Bootstrapper::U5C(st) => {
            assert_eq!(st.config.url, "u");
            assert_eq!(st.intersect, IntersectConfig::Origin);
            assert_eq!(st.cursor.to_points(), vec![Point::Specific(1, vec![1])]);
        }
        other => panic!("{:?}", other),
    }
    let config = sources::Config::Cbor(cbor::Config { dir: s("d") });
    assert!(matches!(config.bootstrapper(&ctx), Ok(sources::Bootstrapper::Cbor(st)) if st.config.dir == "d"));
}

#[test]
fn what_a_source_can_process() {
    let headless = Block { header: None, body: Some(vec![1]) };
    assert!(!headless.is_passable());
    assert!(block(1, 1, true).is_passable());
    assert!(block(1, 1, false).is_passable());
    assert!(Block { header: None, body: None }.is_passable());
    let wired = |b: Block| AnyChainBlock { chain: Some(Chain::Cardano(b)) };
    assert!(!Action::Apply(wired(Block { header: None, body: Some(vec![]) })).is_passable());
    assert!(!Action::Undo(wired(Block { header: None, body: Some(vec![]) })).is_passable());
    assert!(Action::Apply(wire(3, 3)).is_passable());
    assert!(Action::Undo(AnyChainBlock { chain: None }).is_passable());
    assert!(Action::Apply(AnyChainBlock { chain: Some(Chain::Raw(vec![])) }).is_passable());
    assert!(Action::Reset(reference(1, 1)).is_passable());
}
