use virtio_gpu::chardev::{NkCharDev, RwResult, Status};
use virtio_gpu::parport::{DataReg, Parport, ParportStatus};
use virtio_gpu::thread::{Builder, StackSize};
use virtio_gpu::utils::to_c_string;

#[test]
fn to_c_string_appends_one_nul() {
    assert_eq!(to_c_string("hi"), Some(vec![b'h', b'i', 0]));
    assert_eq!(to_c_string(""), Some(vec![0]));
}

#[test]
fn to_c_string_rejects_interior_nul() {
    assert_eq!(to_c_string("a\0b"), None);
}

#[test]
fn builder_collects_the_choices() {
    let b = Builder::new()
        .name(String::from("worker"))
        .stack_size(StackSize::_4KB)
        .bound_cpu(2)
        .inherit_vc();
    assert_eq!(b.name.as_deref(), Some("worker"));
    assert!(matches!(b.stack_size, Some(StackSize::_4KB)));
    assert_eq!(b.bound_cpu, Some(2));
    assert!(b.inherits_vc.is_some());
}

#[test]
fn builder_defaults_are_unset() {
    let b = Builder::new();
    assert!(b.name.is_none());
    assert!(b.stack_size.is_none());
    assert!(b.bound_cpu.is_none());
    assert!(b.inherits_vc.is_none());
}

#[test]
fn chardev_keeps_its_name() {
    let d = NkCharDev::new("parport0");
    assert_eq!(d.get_name(), "parport0");
}

#[test]
fn rw_result_codes() {
    assert_eq!(RwResult::Done(42u8).code(), 1);
    assert_eq!(RwResult::<u8>::WouldBlock.code(), 0);
    assert_eq!(RwResult::<u8>::Failed.code(), -1);
    assert_ne!(Status::Busy, Status::ReadableAndWritable);
}

#[test]
fn parport_claims_and_releases() {
    let mut p = Parport::new();
    assert!(p.is_ready());
    assert!(p.begin_io());
    assert_eq!(p.status, ParportStatus::Busy);
    assert!(!p.is_ready());
    // a second attempt would block
    assert!(!p.begin_io());
    p.set_ready();
    assert!(p.is_ready());
    assert_eq!(DataReg::new(0x5A).data, 0x5A);
}
