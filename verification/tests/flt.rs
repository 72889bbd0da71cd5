use windows_kernel_rs::flt::{FILE_INFORMATION_CLASS, FILTER_MESSAGE_HEADER, FLT_FILTER, FLT_OPERATION_REGISTRATION, FLT_POSTOP_CALLBACK_STATUS, FLT_PREOP_CALLBACK_STATUS, FLT_REGISTRATION_VERSION, IRP_MJ_CREATE, IRP_MJ_OPERATION_END, IRP_MJ_SET_INFORMATION, callback_table};

#[test]
fn registration_builders() {
    let e = FLT_OPERATION_REGISTRATION::new();
    assert_eq!(e, FLT_OPERATION_REGISTRATION { MajorFunction: 0, Flags: 0, PreOperation: 0, PostOperation: 0, Reserved: 0 });
    let e = e.set_major_function(IRP_MJ_SET_INFORMATION).set_flags(3).set_preop(0x10).set_postop(0x20);
    assert_eq!(e, FLT_OPERATION_REGISTRATION { MajorFunction: 6, Flags: 3, PreOperation: 0x10, PostOperation: 0x20, Reserved: 0 });
    let mut r = e;
    r.Reserved = 99;
    assert_eq!(r.set_flags(4).Reserved, 0);
    assert_eq!(r.set_flags(4).PreOperation, 0x10);
}

#[test]
fn callback_table_layout() {
    let t = callback_table(0x100, 0x200);
    assert_eq!(t.len(), 3);
    assert_eq!((t[0].MajorFunction, t[0].PreOperation, t[0].PostOperation), (IRP_MJ_CREATE, 0x100, 0));
    assert_eq!((t[1].MajorFunction, t[1].PreOperation), (IRP_MJ_SET_INFORMATION, 0x200));
    assert_eq!((t[2].MajorFunction, t[2].PreOperation), (IRP_MJ_OPERATION_END, 0));
    assert_eq!(IRP_MJ_OPERATION_END, 0x80);
    assert_eq!(FLT_REGISTRATION_VERSION, 0x0203);
}

#[test]
fn file_information_class_values() {
    assert_eq!(FILE_INFORMATION_CLASS::FileDirectoryInformation.value(), 1);
    assert_eq!(FILE_INFORMATION_CLASS::FileDispositionInformation.value(), 13);
    assert_eq!(FILE_INFORMATION_CLASS::FileDispositionInformationEx.value(), 64);
    assert_eq!(FILE_INFORMATION_CLASS::FileMaximumInformation.value(), 76);
    assert_eq!(FILE_INFORMATION_CLASS::from_value(13), Some(FILE_INFORMATION_CLASS::FileDispositionInformation));
    assert_eq!(FILE_INFORMATION_CLASS::from_value(0), None);
    assert_eq!(FILE_INFORMATION_CLASS::from_value(77), None);
    for v in 1..=76u32 {
        assert_eq!(FILE_INFORMATION_CLASS::from_value(v).unwrap().value(), v);
    }
}

#[test]
fn message_header_and_statuses() {
    let h = FILTER_MESSAGE_HEADER { ReplyLength: 8, MessageId: 42 };
    assert_eq!(h, FILTER_MESSAGE_HEADER { ReplyLength: 8, MessageId: 42 });
    assert_ne!(FLT_PREOP_CALLBACK_STATUS::FLT_PREOP_COMPLETE, FLT_PREOP_CALLBACK_STATUS::FLT_PREOP_SUCCESS_NO_CALLBACK);
    assert_ne!(FLT_POSTOP_CALLBACK_STATUS::FLT_POSTOP_FINISHED_PROCESSING, FLT_POSTOP_CALLBACK_STATUS::FLT_POSTOP_DISALLOW_FSFILTER_IO);
    let f = FLT_FILTER { Filler: [0u8; 288] };
    assert_eq!(f.Filler.len(), 0x120);
}
