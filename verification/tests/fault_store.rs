use std::collections::HashMap;
use zerofs::fault_store::is_manifest;
use zerofs::fault_store::kept_length;
use zerofs::fault_store::FaultControls;
use zerofs::fault_store::InjectedFault;

struct Store {
    inner: HashMap<String, Vec<u8>>,
    ctl: FaultControls,
}

impl Store {
    fn new() -> Self {
        Store {
            inner: HashMap::new(),
            ctl: FaultControls::new(),
        }
    }

    fn put(&mut self, location: &str, payload: Vec<u8>) -> Result<(), InjectedFault> {
        let manifest = self.ctl.begin_put(location, payload.len())?;
        self.inner.insert(location.to_string(), payload);
        self.ctl.take_manifest_block(manifest);
        self.ctl.finish_put(manifest)
    }

    fn get(&mut self, location: &str) -> Result<Vec<u8>, InjectedFault> {
        self.ctl.begin_get()?;
        let full = self.inner[location].clone();
        match self.ctl.take_truncation(false) {
            Some(by) => Ok(full[..kept_length(full.len(), by)].to_vec()),
            None => Ok(full),
        }
    }
}

#[test]
fn fail_gets_then_recovers() {
    let mut store = Store::new();
    store.put("k", b"hello".to_vec()).unwrap();

    store.ctl.fail_gets(2);
    assert!(store.get("k").is_err());
    assert!(store.get("k").is_err());

    assert_eq!(store.get("k").unwrap(), b"hello");
    assert_eq!(store.get("k").unwrap().len(), 5);
    assert_eq!(store.ctl.get_count(), 4);
}

#[test]
fn partition_blocks_writes_but_not_reads() {
    let mut store = Store::new();
    store.put("k", b"v".to_vec()).unwrap();

    store.ctl.partition_writes(true);
    assert!(store.put("k", b"v2".to_vec()).is_err());
    assert_eq!(store.ctl.check_delete(), Err(InjectedFault::Delete));
    assert_eq!(store.ctl.check_copy(), Err(InjectedFault::Copy));
    assert_eq!(store.ctl.begin_multipart(), Err(InjectedFault::PutMultipart));
    assert_eq!(store.get("k").unwrap(), b"v");

    store.ctl.partition_writes(false);
    store.put("k", b"v3".to_vec()).unwrap();
    assert_eq!(store.get("k").unwrap(), b"v3");
    assert_eq!(store.ctl.check_copy(), Ok(()));
}

#[test]
fn fail_puts_then_recovers() {
    let mut store = Store::new();
    store.ctl.fail_puts(1);
    assert!(store.put("k", b"a".to_vec()).is_err());
    store.put("k", b"b".to_vec()).unwrap();

    assert_eq!(store.get("k").unwrap(), b"b");
    assert_eq!(store.ctl.put_count(), 2);
}

#[test]
fn truncates_a_bounded_number_of_gets() {
    let mut store = Store::new();
    store.put("k", vec![7u8; 100]).unwrap();

    store.ctl.truncate_gets(2, 40);
    assert_eq!(store.get("k").unwrap().len(), 60);
    assert_eq!(store.get("k").unwrap().len(), 60);
    assert_eq!(store.get("k").unwrap().len(), 100);
    store.ctl.truncate_gets(1, 400);
    assert_eq!(store.ctl.take_truncation(true), None);
    assert_eq!(store.get("k").unwrap().len(), 0);
}

#[test]
fn manifest_response_loss_does_not_consume_on_other_puts() {
    let mut store = Store::new();
    store.ctl.fail_manifest_puts_after_apply(1);
    store.put("segment/1", b"segment".to_vec()).unwrap();
    let manifest = "db/manifest/00000000000000000001.manifest";
    assert_eq!(
        store.put(manifest, b"manifest".to_vec()),
        Err(InjectedFault::PutResponse)
    );
    assert_eq!(store.ctl.manifest_put_count(), 1);
    assert_eq!(store.ctl.manifest_response_loss_count(), 1);
    assert_eq!(store.get(manifest).unwrap(), b"manifest");
}

#[test]
fn put_limits_reject_before_forwarding() {
    let mut store = Store::new();
    store.ctl.set_put_limits(2, 4);
    store.put("a", b"aa".to_vec()).unwrap();
    store.put("b", b"bb".to_vec()).unwrap();
    assert_eq!(store.put("c", vec![]), Err(InjectedFault::PutCountLimit));
    assert_eq!(store.inner.len(), 2);

    let mut store = Store::new();
    store.ctl.set_put_limits(8, 3);
    store.put("exact", b"abc".to_vec()).unwrap();
    assert_eq!(
        store.put("over", b"d".to_vec()),
        Err(InjectedFault::PutByteLimit)
    );
    assert_eq!(store.inner.len(), 1);
    assert_eq!(
        store.ctl.begin_multipart(),
        Err(InjectedFault::MultipartBudget)
    );
    assert_eq!(
        store.ctl.put_locations(),
        &["put_opts exact".to_string(), "put_opts over".to_string()]
    );
}

#[test]
fn concurrent_puts_cannot_exceed_the_forwarded_byte_budget() {
    let mut store = Store::new();
    store.ctl.set_put_limits(64, 64);
    let results: Vec<_> = (0..32)
        .map(|index| store.put(&format!("key-{index}"), vec![index as u8; 4]))
        .collect();
    assert_eq!(results.iter().filter(|result| result.is_ok()).count(), 16);
    assert_eq!(store.inner.len(), 16);
    assert_eq!(store.inner.values().map(|object| object.len()).sum::<usize>(), 64);
}

#[test]
fn a_lost_reply_leaves_the_object_in_place() {
    let mut store = Store::new();
    store.ctl.fail_puts_after_apply(1);
    assert_eq!(
        store.put("k", b"v".to_vec()),
        Err(InjectedFault::PutResponse)
    );
    assert_eq!(store.get("k").unwrap(), b"v");
    store.put("k", b"w".to_vec()).unwrap();
}

#[test]
fn a_held_manifest_is_held_once() {
    let mut ctl = FaultControls::new();
    ctl.block_manifest_after_apply();
    assert!(!ctl.take_manifest_block(false));
    assert!(ctl.take_manifest_block(true));
    assert!(!ctl.take_manifest_block(true));
}

#[test]
fn byte_counts_that_overflow_are_refused() {
    let mut ctl = FaultControls::new();
    assert_eq!(ctl.begin_put("a", usize::MAX), Ok(false));
    assert_eq!(ctl.begin_put("b", 1), Err(InjectedFault::PutByteOverflow));
}

#[test]
fn manifests_are_known_by_their_extension() {
    assert!(is_manifest("db/manifest/1.manifest"));
    assert!(is_manifest("x.y.manifest"));
    assert!(!is_manifest("db/manifest/1"));
    assert!(!is_manifest("manifest"));
    assert!(!is_manifest("1.manifest.bak"));
    assert!(!is_manifest("xmanifest"));
}

#[test]
fn messages_name_the_call() {
    assert_eq!(
        InjectedFault::PutResponse.message(),
        "injected transient fault on put response"
    );
    assert_eq!(
        InjectedFault::Get.message(),
        "injected transient fault on get"
    );
}
