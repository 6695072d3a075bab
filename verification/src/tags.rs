use vstd::prelude::*;

verus! {

/// The namespace tag under which a deployment record's own address — and
/// therefore its authority handle over its tokens' metadata — is derived:
/// the ASCII bytes of "editions_deployment".
pub open spec fn deployment_tag() -> Seq<u8> {
    seq![
        101u8, 100u8, 105u8, 116u8, 105u8, 111u8, 110u8, 115u8, 95u8, 100u8, 101u8, 112u8, 108u8,
        111u8, 121u8, 109u8, 101u8, 110u8, 116u8,
    ]
}

/// The ASCII bytes of "editions_deployment" as a byte vector.
pub fn deployment_tag_bytes() -> (r: Vec<u8>)
    ensures
        r@ == deployment_tag(),
{
    let v: Vec<u8> = vec![
        101u8, 100u8, 105u8, 116u8, 105u8, 111u8, 110u8, 115u8, 95u8, 100u8, 101u8, 112u8, 108u8,
        111u8, 121u8, 109u8, 101u8, 110u8, 116u8,
    ];
    proof {
        assert(v@ =~= deployment_tag());
    }
    v
}

/// The namespace tag under which the controls record's delegated mint
/// authority is derived: the ASCII bytes of "editions_controls".
pub open spec fn controls_tag() -> Seq<u8> {
    seq![
        101u8, 100u8, 105u8, 116u8, 105u8, 111u8, 110u8, 115u8, 95u8, 99u8, 111u8, 110u8, 116u8,
        114u8, 111u8, 108u8, 115u8,
    ]
}

/// The ASCII bytes of "editions_controls" as a byte vector.
pub fn controls_tag_bytes() -> (r: Vec<u8>)
    ensures
        r@ == controls_tag(),
{
    let v: Vec<u8> = vec![
        101u8, 100u8, 105u8, 116u8, 105u8, 111u8, 110u8, 115u8, 95u8, 99u8, 111u8, 110u8, 116u8,
        114u8, 111u8, 108u8, 115u8,
    ];
    proof {
        assert(v@ =~= controls_tag());
    }
    v
}

/// The namespace tag under which the holder-side authority over a legacy
/// content record is derived: the ASCII bytes of "legacy_inscription".
pub open spec fn legacy_tag() -> Seq<u8> {
    seq![
        108u8, 101u8, 103u8, 97u8, 99u8, 121u8, 95u8, 105u8, 110u8, 115u8, 99u8, 114u8, 105u8,
        112u8, 116u8, 105u8, 111u8, 110u8,
    ]
}

/// The ASCII bytes of "legacy_inscription" as a byte vector.
pub fn legacy_tag_bytes() -> (r: Vec<u8>)
    ensures
        r@ == legacy_tag(),
{
    let v: Vec<u8> = vec![
        108u8, 101u8, 103u8, 97u8, 99u8, 121u8, 95u8, 105u8, 110u8, 115u8, 99u8, 114u8, 105u8,
        112u8, 116u8, 105u8, 111u8, 110u8,
    ];
    proof {
        assert(v@ =~= legacy_tag());
    }
    v
}

/// The namespace tag under which a whitelisted migration program derives
/// the signer it uses when creating metadata on behalf of a token: the
/// ASCII bytes of "metadata_signer".
pub open spec fn metadata_signer_tag() -> Seq<u8> {
    seq![
        109u8, 101u8, 116u8, 97u8, 100u8, 97u8, 116u8, 97u8, 95u8, 115u8, 105u8, 103u8, 110u8,
        101u8, 114u8,
    ]
}

/// The ASCII bytes of "metadata_signer" as a byte vector.
pub fn metadata_signer_tag_bytes() -> (r: Vec<u8>)
    ensures
        r@ == metadata_signer_tag(),
{
    let v: Vec<u8> = vec![
        109u8, 101u8, 116u8, 97u8, 100u8, 97u8, 116u8, 97u8, 95u8, 115u8, 105u8, 103u8, 110u8,
        101u8, 114u8,
    ];
    proof {
        assert(v@ =~= metadata_signer_tag());
    }
    v
}

/// The identity of the one whitelisted migration program that may create
/// metadata through a derived signer.
pub open spec fn migrator_id_bytes() -> Seq<u8> {
    seq![
        11u8, 116u8, 176u8, 243u8, 237u8, 5u8, 14u8, 144u8, 231u8, 224u8, 213u8, 249u8, 221u8,
        105u8, 80u8, 52u8, 12u8, 27u8, 235u8, 175u8, 63u8, 184u8, 222u8, 159u8, 112u8, 111u8,
        228u8, 140u8, 202u8, 37u8, 31u8, 59u8,
    ]
}

/// The whitelisted migration program's identity as an address value.
pub fn migrator_id() -> (r: crate::address::Address)
    ensures
        r@ == migrator_id_bytes(),
        r.wf(),
{
    let v: Vec<u8> = vec![
        11u8, 116u8, 176u8, 243u8, 237u8, 5u8, 14u8, 144u8, 231u8, 224u8, 213u8, 249u8, 221u8,
        105u8, 80u8, 52u8, 12u8, 27u8, 235u8, 175u8, 63u8, 184u8, 222u8, 159u8, 112u8, 111u8,
        228u8, 140u8, 202u8, 37u8, 31u8, 59u8,
    ];
    proof {
        assert(v@ =~= migrator_id_bytes());
    }
    crate::address::Address { bytes: v }
}

} // verus!
