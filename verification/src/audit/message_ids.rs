//! Stable journald `MESSAGE_ID` per operation type (RFC 4122 UUIDs), so
//! that all events of one operation type share one ID and can be filtered.

use vstd::prelude::*;

verus! {

/// `rewrite_grub` — `grub-mkconfig` invocation.
pub const REWRITE_GRUB: &'static str = "f9c8a4d2-1e6b-4c3a-9f87-aabbccddeeff";

/// `set_grub_value` — single key write into `/etc/default/grub`.
pub const SET_GRUB_VALUE: &'static str = "0a8c2b9d-3e5f-4471-aa9d-12c4e7f3b2a8";

/// `enroll_mok` — Machine Owner Key signing + enrollment.
pub const ENROLL_MOK: &'static str = "1b2d3e4f-5a6b-7c8d-9e0f-aabbccddeeff";

/// `replace_pk` — Platform Key replacement (Strict Mode).
pub const REPLACE_PK: &'static str = "2c3d4e5f-6a7b-8c9d-0e1f-aabbccddeef0";

/// `generate_keys` — custom PK/KEK/db generation (Strict Mode).
pub const GENERATE_KEYS: &'static str = "3d4e5f6a-7b8c-9d0e-1f2a-aabbccddeef1";

/// `restore_snapshot` — snapshot restoration.
pub const RESTORE_SNAPSHOT: &'static str = "4e5f6a7b-8c9d-0e1f-2a3b-aabbccddeef2";

/// `set_loader_default` — systemd-boot default change.
pub const SET_LOADER_DEFAULT: &'static str = "5f6a7b8c-9d0e-1f2a-3b4c-aabbccddeef3";

/// `add_kernel_param` — UKI cmdline parameter add.
pub const ADD_KERNEL_PARAM: &'static str = "6a7b8c9d-0e1f-2a3b-4c5d-aabbccddeef4";

/// `remove_kernel_param` — UKI cmdline parameter remove.
pub const REMOVE_KERNEL_PARAM: &'static str = "7b8c9d0e-1f2a-3b4c-5d6e-aabbccddeef5";

/// Every message ID, in declaration order.
pub open spec fn all_message_ids() -> Seq<Seq<char>> {
    seq![
        REWRITE_GRUB@,
        SET_GRUB_VALUE@,
        ENROLL_MOK@,
        REPLACE_PK@,
        GENERATE_KEYS@,
        RESTORE_SNAPSHOT@,
        SET_LOADER_DEFAULT@,
        ADD_KERNEL_PARAM@,
        REMOVE_KERNEL_PARAM@,
    ]
}

/// A lower-case hexadecimal digit.
pub open spec fn is_lower_hex(c: char) -> bool {
    ('0' <= c && c <= '9') || ('a' <= c && c <= 'f')
}

/// Text in the 8-4-4-4-12 layout of an RFC 4122 UUID.
pub open spec fn is_uuid_text(s: Seq<char>) -> bool {
    &&& s.len() == 36
    &&& forall|i: int|
        0 <= i < 36 ==> if i == 8 || i == 13 || i == 18 || i == 23 {
            s[i] == '-'
        } else {
            is_lower_hex(#[trigger] s[i])
        }
}

/// Every message ID is a UUID, and no two operation types share one.
pub proof fn lemma_message_ids_are_distinct_uuids()
    ensures
        forall|i: int| 0 <= i < all_message_ids().len() ==> is_uuid_text(#[trigger] all_message_ids()[i]),
        forall|i: int, j: int|
            0 <= i < j < all_message_ids().len() ==> all_message_ids()[i] != all_message_ids()[j],
{
    reveal_strlit("f9c8a4d2-1e6b-4c3a-9f87-aabbccddeeff");
    reveal_strlit("0a8c2b9d-3e5f-4471-aa9d-12c4e7f3b2a8");
    reveal_strlit("1b2d3e4f-5a6b-7c8d-9e0f-aabbccddeeff");
    reveal_strlit("2c3d4e5f-6a7b-8c9d-0e1f-aabbccddeef0");
    reveal_strlit("3d4e5f6a-7b8c-9d0e-1f2a-aabbccddeef1");
    reveal_strlit("4e5f6a7b-8c9d-0e1f-2a3b-aabbccddeef2");
    reveal_strlit("5f6a7b8c-9d0e-1f2a-3b4c-aabbccddeef3");
    reveal_strlit("6a7b8c9d-0e1f-2a3b-4c5d-aabbccddeef4");
    reveal_strlit("7b8c9d0e-1f2a-3b4c-5d6e-aabbccddeef5");
    let ids = all_message_ids();
    assert forall|i: int| 0 <= i < ids.len() implies is_uuid_text(#[trigger] ids[i]) by {
        let s = ids[i];
        assert(s.len() == 36);
        assert forall|k: int| 0 <= k < 36 implies if k == 8 || k == 13 || k == 18 || k == 23 {
            s[k] == '-'
        } else {
            is_lower_hex(#[trigger] s[k])
        } by {}
    }
    assert forall|i: int, j: int| 0 <= i < j < ids.len() implies ids[i] != ids[j] by {
        assert(ids[i][0] != ids[j][0]);
    }
}

} // verus!
