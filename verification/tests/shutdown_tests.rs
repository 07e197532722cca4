use common_x::graceful_shutdown::{CloseChain, CloseToken};

/// A full walkthrough: a tree of tokens over three tiers, clones and
/// teardown, and a strictly deepest-first drain.
#[test]
fn graceful_shutdown_test() {
    let token = CloseToken::default();
    let token1 = token.clone();
    let child1 = token.child_token();
    let child2 = child1.child_token();
    let child3 = token.child_token();
    let child4 = child1.clone();
    let child5 = child4.child_token();
    println!("token deep: {}", token.deep());
    println!("child1 deep: {}", child1.deep());
    println!("child2 deep: {}", child2.deep());
    println!("child3 deep: {}", child3.deep());
    println!("child4 deep: {}", child4.deep());
    println!("child5 deep: {}", child5.deep());
    println!("len: {}", token.chain().len());
    assert_eq!(token.deep(), 0);
    assert_eq!(child1.deep(), 1);
    assert_eq!(child2.deep(), 2);
    assert_eq!(child3.deep(), 1);
    assert_eq!(child4.deep(), 1);
    assert_eq!(child5.deep(), 2);
    assert_eq!(token.chain().len(), 3);

    token.chain().teardown();
    println!("child4.close_rv.sender_count: {}", child4.sender_count());
    assert_eq!(child4.sender_count(), 2);
    drop(child5);
    println!("child4.close_rv.sender_count: {}", child4.sender_count());
    assert_eq!(child4.sender_count(), 1);
    drop(child2);
    println!("child4.close_rv.sender_count: {}", child4.sender_count());
    assert_eq!(child4.sender_count(), 0);
    child4.closed();
    child3.closed();
    child1.closed();
    drop(child4);
    drop(child3);
    drop(child1);
    token1.closed();

    println!("exit len: {}", token.chain().len());
    assert_eq!(token.chain().len(), 0);
}

/// Tier 0 then immediate teardown: the wait returns promptly, no deadlock.
#[test]
fn tier_zero_teardown_releases_at_once() {
    let chain = CloseChain::create();
    let token = chain.token_for(0);
    chain.teardown();
    token.closed();
    assert!(token.closed_with_timeout(5));
}

/// Tokens requested on an already torn-down chain are born released.
#[test]
fn token_after_teardown_is_born_released() {
    let chain = CloseChain::create();
    chain.teardown();
    let token = chain.token_for(3);
    assert_eq!(token.deep(), 3);
    token.closed();
    assert!(token.closed_with_timeout(0));
    assert_eq!(chain.len(), 0);
}

/// N sibling tokens: destroying all but one must not release the tier below;
/// destroying the last does.
#[test]
fn siblings_release_only_with_the_last() {
    let chain = CloseChain::create();
    let a = chain.token_for(0);
    let b1 = chain.token_for(1);
    let b2 = b1.clone();
    let b3 = b1.clone();
    chain.teardown();
    assert_eq!(a.sender_count(), 3);
    assert!(!a.closed_with_timeout(0));
    drop(b1);
    assert!(!a.closed_with_timeout(0));
    drop(b2);
    assert_eq!(a.sender_count(), 1);
    assert!(!a.closed_with_timeout(0));
    drop(b3);
    assert!(a.closed_with_timeout(0));
    a.closed();
}

/// A child derived from a live parent keeps the parent's tier alive even
/// after chain teardown, until the child itself is destroyed.
#[test]
fn child_keeps_parent_tier_alive_after_teardown() {
    let chain = CloseChain::create();
    let parent = chain.token_for(0);
    let child = parent.child_token();
    chain.teardown();
    assert!(!parent.closed_with_timeout(0));
    assert!(child.closed_with_timeout(0));
    drop(child);
    assert!(parent.closed_with_timeout(0));
    parent.closed();
}

/// The timed wait reports a timeout while the tier is alive and reports
/// release for any duration, zero included, once release has happened —
/// repeatably.
#[test]
fn timed_wait_reports_timeout_then_release() {
    let chain = CloseChain::create();
    let token = chain.token_for(0);
    assert!(!token.closed_with_timeout(0));
    assert!(!token.closed_with_timeout(1));
    chain.teardown();
    assert!(token.closed_with_timeout(0));
    assert!(token.closed_with_timeout(0));
    assert!(token.closed_with_timeout(5));
}

/// Sibling derivations from clones of one token all land on the same single
/// new tier.
#[test]
fn sibling_derivations_share_one_tier() {
    let chain = CloseChain::create();
    let parent = chain.token_for(0);
    assert_eq!(chain.len(), 1);
    let c1 = parent.child_token();
    assert_eq!(chain.len(), 2);
    let parent_clone = parent.clone();
    let c2 = parent_clone.child_token();
    let c3 = parent.child_token();
    assert_eq!(c1.deep(), 1);
    assert_eq!(c2.deep(), 1);
    assert_eq!(c3.deep(), 1);
    assert_eq!(chain.len(), 2);
    chain.teardown();
    drop(c1);
    drop(c2);
    drop(c3);
    drop(parent_clone);
    parent.closed();
}

/// Tiers 0, 1, 2 with tokens A, B, C: after teardown the deepest tier
/// releases first, the middle one only once C is destroyed, and tier 0 only
/// once B is destroyed.
#[test]
fn three_tiers_release_deepest_first() {
    let chain = CloseChain::create();
    let a = chain.token_for(0);
    let b = chain.token_for(1);
    let c = chain.token_for(2);
    assert_eq!(chain.len(), 3);
    assert!(!c.closed_with_timeout(0));
    assert!(!b.closed_with_timeout(0));
    assert!(!a.closed_with_timeout(0));
    chain.teardown();
    assert!(c.closed_with_timeout(0));
    assert!(!b.closed_with_timeout(0));
    assert!(!a.closed_with_timeout(0));
    drop(c);
    assert!(b.closed_with_timeout(0));
    assert!(!a.closed_with_timeout(0));
    drop(b);
    assert!(a.closed_with_timeout(0));
    a.closed();
}

/// Three generations of derived tokens: releases cascade strictly
/// grandchild-first, and the root's tier never releases before the child's
/// destruction.
#[test]
fn generations_release_grandchild_first() {
    let root = CloseToken::default();
    let child = root.child_token();
    let grandchild = child.child_token();
    assert_eq!(root.deep(), 0);
    assert_eq!(child.deep(), 1);
    assert_eq!(grandchild.deep(), 2);
    assert!(!grandchild.closed_with_timeout(0));
    assert!(!child.closed_with_timeout(0));
    assert!(!root.closed_with_timeout(0));
    root.chain().teardown();
    assert!(grandchild.closed_with_timeout(0));
    assert!(!child.closed_with_timeout(0));
    assert!(!root.closed_with_timeout(0));
    drop(grandchild);
    assert!(child.closed_with_timeout(0));
    assert!(!root.closed_with_timeout(0));
    drop(child);
    assert!(root.closed_with_timeout(0));
    root.closed();
}

/// `close` is teardown plus the owner's own wait in one call.
#[test]
fn close_tears_down_and_returns() {
    let token = CloseToken::default();
    token.close();
    assert!(token.closed_with_timeout(0));
    assert_eq!(token.chain().len(), 0);
    let again = CloseToken::default();
    assert!(again.close_with_timeout(5));
}

/// Truly concurrent sibling derivations from clones of one token still
/// settle on exactly one new tier for that depth.
#[test]
fn concurrent_derivations_share_one_tier() {
    let rt = tokio::runtime::Builder::new_multi_thread()
        .worker_threads(4)
        .build()
        .unwrap();
    let parent = CloseToken::default();
    let mut handles = Vec::new();
    for _ in 0..8 {
        let p = parent.clone();
        // hand the clone back out: dropping it inside the task would make
        // the task block on the still-alive tier 0
        handles.push(rt.spawn(async move {
            let c = p.child_token();
            (p, c)
        }));
    }
    let mut parents = Vec::new();
    let mut children = Vec::new();
    for h in handles {
        let (p, c) = rt.block_on(h).unwrap();
        parents.push(p);
        children.push(c);
    }
    for c in &children {
        assert_eq!(c.deep(), 1);
    }
    assert_eq!(parent.chain().len(), 2);
    parent.chain().teardown();
    drop(children);
    drop(parents);
    parent.closed();
}

/// The async-wait sink observes the same release event.
#[test]
fn release_sink_sees_release() {
    let token = CloseToken::default();
    let sink = token.release_sink();
    assert!(matches!(
        sink.recv_timeout(std::time::Duration::from_secs(0)),
        Err(flume::RecvTimeoutError::Timeout)
    ));
    token.chain().teardown();
    assert!(matches!(
        sink.recv_timeout(std::time::Duration::from_secs(0)),
        Err(flume::RecvTimeoutError::Disconnected)
    ));
}
