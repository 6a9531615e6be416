use assets::asset::{copy_status, settle, share, snapshot, status_of};
use assets::{Asset, AssetState, Metadata};
use std::sync::Arc;

fn failure(msg: &str) -> anyhow::Error {
    anyhow::Error::msg(msg.to_string())
}

#[test]
fn pending_handle_reads_none_until_resolved() {
    let a: Asset<u32> = Asset::pending();
    assert!(a.get().is_none());
    a.resolve(Ok(7));
    match a.get() {
        Some(Ok(v)) => assert_eq!(*v, 7),
        _ => panic!("expected a loaded payload"),
    }
}

#[test]
fn resolved_handle_is_stable_over_many_reads() {
    let a: Asset<String> = Asset::pending();
    a.resolve(Ok("first".to_string()));
    let first = match a.get() {
        Some(Ok(v)) => v,
        _ => panic!("expected a loaded payload"),
    };
    a.resolve(Ok("second".to_string()));
    a.resolve(Err(failure("late")));
    for _ in 0..10_000 {
        match a.get() {
            Some(Ok(v)) => {
                assert!(Arc::ptr_eq(&v, &first));
                assert_eq!(v.as_str(), "first");
            }
            _ => panic!("the first outcome must stay"),
        }
    }
}

#[test]
fn clone_before_resolution_sees_same_outcome() {
    let a: Asset<Vec<u8>> = Asset::pending();
    let b = a.clone();
    assert!(b.get().is_none());
    a.resolve(Ok(vec![1, 2, 3]));
    let (x, y) = match (a.get(), b.get()) {
        (Some(Ok(x)), Some(Ok(y))) => (x, y),
        _ => panic!("both handles must be loaded"),
    };
    assert!(Arc::ptr_eq(&x, &y));
    assert_eq!(*y, vec![1, 2, 3]);
}

#[test]
fn clone_resolved_through_clone_reaches_original() {
    let a: Asset<u8> = Asset::pending();
    let b = a.clone();
    b.resolve(Err(failure("missing")));
    match (a.get(), b.get()) {
        (Some(Err(x)), Some(Err(y))) => assert!(Arc::ptr_eq(&x, &y)),
        _ => panic!("both handles must have failed"),
    }
}

#[test]
fn readers_of_failed_cell_share_one_error() {
    let a: Asset<u8> = Asset::pending();
    let b = a.clone();
    a.resolve(Err(failure("decode failed")));
    let x = match a.get() {
        Some(Err(e)) => e,
        _ => panic!("expected an error"),
    };
    let y = match b.get() {
        Some(Err(e)) => e,
        _ => panic!("expected an error"),
    };
    assert!(Arc::ptr_eq(&x, &y));
    assert_eq!(x.to_string(), "decode failed");
    assert_eq!(y.to_string(), x.to_string());
}

#[test]
fn progress_follows_resolution() {
    let a: Asset<u8> = Asset::pending();
    let p = a.progress();
    assert!(p.read().is_none());
    a.resolve(Ok(1));
    assert!(matches!(p.read(), Some(Ok(()))));
    let b: Asset<u8> = Asset::pending();
    let q = b.progress();
    b.resolve(Err(failure("no")));
    let e = match q.read() {
        Some(Err(e)) => e,
        _ => panic!("expected an error"),
    };
    match b.get() {
        Some(Err(f)) => assert!(Arc::ptr_eq(&e, &f)),
        _ => panic!("expected an error"),
    }
}

#[test]
fn settle_takes_first_value_only() {
    assert_eq!(settle(None, 3u8), Some(3));
    assert_eq!(settle(Some(3u8), 4), Some(3));
    assert_eq!(settle(settle(None, 1u8), 2), Some(1));
}

#[test]
fn share_wraps_payload_and_error() {
    match share(Ok::<u16, anyhow::Error>(9)) {
        Ok(p) => assert_eq!(*p, 9),
        Err(_) => panic!("expected a payload"),
    }
    match share::<u16>(Err(failure("bad"))) {
        Err(e) => assert_eq!(e.to_string(), "bad"),
        Ok(_) => panic!("expected an error"),
    }
}

#[test]
fn snapshot_shares_payload() {
    let p = Arc::new(5u8);
    let s: AssetState<u8> = Some(Ok(p.clone()));
    match snapshot(&s) {
        Some(Ok(q)) => assert!(Arc::ptr_eq(&p, &q)),
        _ => panic!("expected the payload"),
    }
    let none: AssetState<u8> = None;
    assert!(snapshot(&none).is_none());
}

#[test]
fn status_drops_payload_keeps_error() {
    assert!(matches!(status_of(&Ok::<Arc<u8>, _>(Arc::new(1u8))), Ok(())));
    let e = Arc::new(failure("gone"));
    match status_of::<u8>(&Err(e.clone())) {
        Err(f) => assert!(Arc::ptr_eq(&e, &f)),
        Ok(()) => panic!("expected the error"),
    }
    match copy_status(&Some(Err(e.clone()))) {
        Some(Err(f)) => assert!(Arc::ptr_eq(&e, &f)),
        _ => panic!("expected the error"),
    }
    assert!(copy_status(&None).is_none());
    assert!(matches!(copy_status(&Some(Ok(()))), Some(Ok(()))));
}

struct Dimensions {
    width: u32,
    height: u32,
}

impl Metadata for Dimensions {
    fn load(raw: &[u8]) -> Result<Self, anyhow::Error> {
        if raw.len() < 2 {
            return Err(failure("too short"));
        }
        Ok(Dimensions { width: raw[0] as u32, height: raw[1] as u32 })
    }
}

#[test]
fn metadata_parses_side_data() {
    let d = <Dimensions as Metadata>::load(&[4, 3]).unwrap();
    assert_eq!((d.width, d.height), (4, 3));
    assert!(<Dimensions as Metadata>::load(&[1]).is_err());
}
