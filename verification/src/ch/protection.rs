//! Guest protection: what the host offers, and whether Cloud Hypervisor can be used with it.

use vstd::prelude::*;
use vstd::string::*;

use crate::text::concat2;

verus! {

/// Details of AMD's memory encryption.
#[derive(Clone, Copy, Debug, PartialEq, Eq, Structural)]
pub struct SevSnpDetails {
    /// The position of the encryption bit.
    pub cbitpos: u32,
    /// How many address bits are lost.
    pub phys_addr_reduction: u32,
}

/// A kind of guest protection.
#[derive(Clone, Copy, Debug, PartialEq, Eq, Structural)]
pub enum GuestProtection {
    /// None at all.
    NoProtection,
    /// Intel TDX.
    Tdx,
    /// AMD SEV.
    Sev(SevSnpDetails),
    /// AMD SEV-SNP.
    Snp(SevSnpDetails),
    /// IBM PEF.
    Pef,
    /// IBM Secure Execution.
    Se,
}

/// Why a guest cannot be started with the protection at hand.
#[derive(Clone, Copy, Debug, PartialEq, Eq, Structural)]
pub enum GuestProtectionError {
    /// Protection is asked for, and there is none.
    NoProtectionAvailable,
    /// On a host with TDX Cloud Hypervisor only makes confidential guests.
    TDXProtectionMustBeUsedWithCH,
    /// The host has another protection than TDX.
    ExpectedTDXProtection(GuestProtection),
}

impl GuestProtectionError {
    /// The error in words, `found` being the name of the protection that was found.
    pub open spec fn text(&self, found: Seq<char>) -> Seq<char> {
        match self {
            GuestProtectionError::NoProtectionAvailable => {
                "guest protection requested but no guest protection available"@
            },
            GuestProtectionError::TDXProtectionMustBeUsedWithCH => {
                "TDX guest protection available and must be used with Cloud Hypervisor (set 'confidential_guest=true')"@
            },
            GuestProtectionError::ExpectedTDXProtection(_) => {
                "Expected TDX protection, found "@ + found
            },
        }
    }

    /// The error in words, `found` being the name of the protection that was found.
    pub fn message(&self, found: &str) -> (r: String)
        ensures
            r@ == self.text(found@),
    {
        match self {
            GuestProtectionError::NoProtectionAvailable => {
                "guest protection requested but no guest protection available".to_owned()
            },
            GuestProtectionError::TDXProtectionMustBeUsedWithCH => {
                "TDX guest protection available and must be used with Cloud Hypervisor (set 'confidential_guest=true')".to_owned()
            },
            GuestProtectionError::ExpectedTDXProtection(_) => concat2(
                "Expected TDX protection, found ",
                found,
            ),
        }
    }
}

/// Whether a guest can be started: a confidential one needs TDX, and with TDX only a confidential
/// one will do.
pub open spec fn protection_verdict(
    confidential_guest: bool,
    protection: GuestProtection,
) -> Result<(), GuestProtectionError> {
    if confidential_guest {
        if protection == GuestProtection::NoProtection {
            Err(GuestProtectionError::NoProtectionAvailable)
        } else if protection == GuestProtection::Tdx {
            Ok(())
        } else {
            Err(GuestProtectionError::ExpectedTDXProtection(protection))
        }
    } else if protection == GuestProtection::Tdx {
        Err(GuestProtectionError::TDXProtectionMustBeUsedWithCH)
    } else {
        Ok(())
    }
}

/// The protection that a guest uses of the one that the host has: none where none is asked for,
/// unless the host has TDX, which cannot be left unused.
pub open spec fn protection_in_use(
    confidential_guest: bool,
    protection: GuestProtection,
) -> GuestProtection {
    if !confidential_guest && protection != GuestProtection::Tdx {
        GuestProtection::NoProtection
    } else {
        protection
    }
}

/// The protection that a guest uses of the one that the host has.
pub fn used_protection(
    confidential_guest: bool,
    protection: GuestProtection,
) -> (r: GuestProtection)
    ensures
        r == protection_in_use(confidential_guest, protection),
{
    if !confidential_guest && protection != GuestProtection::Tdx {
        GuestProtection::NoProtection
    } else {
        protection
    }
}

/// Whether a guest can be started with the protection that the host has.
pub fn check_guest_protection(
    confidential_guest: bool,
    protection: GuestProtection,
) -> (r: Result<(), GuestProtectionError>)
    ensures
        r == protection_verdict(confidential_guest, protection),
{
    if confidential_guest {
        if protection == GuestProtection::NoProtection {
            Err(GuestProtectionError::NoProtectionAvailable)
        } else if let GuestProtection::Tdx = protection {
            Ok(())
        } else {
            Err(GuestProtectionError::ExpectedTDXProtection(protection))
        }
    } else if protection == GuestProtection::NoProtection {
        Ok(())
    } else if let GuestProtection::Tdx = protection {
        Err(GuestProtectionError::TDXProtectionMustBeUsedWithCH)
    } else {
        Ok(())
    }
}

/// The protection to go by where one may be given in place of the host's: the given one if there
/// is one, otherwise the host's. A host that cannot be asked is an error either way.
pub fn get_fake_guest_protection<E>(
    fake: Option<GuestProtection>,
    available: Result<GuestProtection, E>,
) -> (r: Result<GuestProtection, E>)
    ensures
        available matches Err(e) ==> r == Err::<GuestProtection, E>(e),
        available matches Ok(host) ==> r == Ok::<GuestProtection, E>(
            match fake {
                Some(p) => p,
                None => host,
            },
        ),
{
    match available {
        Err(e) => Err(e),
        Ok(host) => match fake {
            Some(p) => Ok(p),
            None => Ok(host),
        },
    }
}

/// The protection to go by: in a test build one may be given in place of the host's, otherwise it
/// is what the host has.
pub fn get_guest_protection<E>(
    test_build: bool,
    fake: Option<GuestProtection>,
    available: Result<GuestProtection, E>,
) -> (r: Result<GuestProtection, E>)
    ensures
        available matches Err(e) ==> r == Err::<GuestProtection, E>(e),
        available matches Ok(host) ==> r == Ok::<GuestProtection, E>(
            match fake {
                Some(p) => if test_build {
                    p
                } else {
                    host
                },
                None => host,
            },
        ),
{
    if test_build {
        get_fake_guest_protection(fake, available)
    } else {
        available
    }
}

/// A confidential guest is started with TDX and with nothing else, and a guest on a TDX host is
/// started if and only if it is confidential.
pub proof fn law_confidential_iff_tdx(confidential_guest: bool, protection: GuestProtection)
    ensures
        confidential_guest ==> (protection_verdict(confidential_guest, protection) is Ok
            <==> protection == GuestProtection::Tdx),
        protection == GuestProtection::Tdx ==> (protection_verdict(
            confidential_guest,
            protection,
        ) is Ok <==> confidential_guest),
{
}

/// A guest that can be started uses TDX if it is confidential, and no protection otherwise.
pub proof fn law_started_guest_protection(confidential_guest: bool, protection: GuestProtection)
    requires
        protection_verdict(confidential_guest, protection) is Ok,
    ensures
        protection_in_use(confidential_guest, protection) == (if confidential_guest {
            GuestProtection::Tdx
        } else {
            GuestProtection::NoProtection
        }),
{
}

/// A confidential guest is accepted with TDX alone, and any other guest with everything but TDX.
/// Every refusal has its own reason, and a protection that does not fit is named in it.
pub proof fn law_every_refusal_has_reason(
    confidential_guest: bool,
    protection: GuestProtection,
    r: Result<(), GuestProtectionError>,
)
    requires
        call_ensures(check_guest_protection, (confidential_guest, protection), r),
    ensures
        r is Ok <==> confidential_guest == (protection is Tdx),
        r == Err::<(), GuestProtectionError>(GuestProtectionError::NoProtectionAvailable)
            <==> confidential_guest && protection is NoProtection,
        r == Err::<(), GuestProtectionError>(GuestProtectionError::TDXProtectionMustBeUsedWithCH)
            <==> !confidential_guest && protection is Tdx,
        r matches Err(GuestProtectionError::ExpectedTDXProtection(p)) ==> p == protection,
        confidential_guest && !(protection is NoProtection) && !(protection is Tdx) ==> r == Err::<
            (),
            GuestProtectionError,
        >(GuestProtectionError::ExpectedTDXProtection(protection)),
{
}

/// The protection in use is the host's, but for one that was not asked for and is not TDX.
pub proof fn law_unwanted_protection_not_used(
    confidential_guest: bool,
    protection: GuestProtection,
    r: GuestProtection,
)
    requires
        call_ensures(used_protection, (confidential_guest, protection), r),
    ensures
        confidential_guest || protection is Tdx ==> r == protection,
        !confidential_guest && !(protection is Tdx) ==> r is NoProtection,
{
}

/// A made-up protection counts in a test alone, and never hides that the host's could not be found
/// out.
pub proof fn law_fake_protection_in_tests_only<E>(
    test_build: bool,
    fake: Option<GuestProtection>,
    available: Result<GuestProtection, E>,
    r: Result<GuestProtection, E>,
    faked: Result<GuestProtection, E>,
)
    requires
        call_ensures(get_guest_protection::<E>, (test_build, fake, available), r),
        call_ensures(get_fake_guest_protection::<E>, (fake, available), faked),
    ensures
        available matches Err(e) ==> r == Err::<GuestProtection, E>(e) && faked == r,
        !test_build || fake is None ==> r == available,
        test_build ==> r == faked,
        available is Ok ==> (fake matches Some(p) ==> faked == Ok::<GuestProtection, E>(p)),
        fake is None ==> faked == available,
{
}

/// Every [`GuestProtectionError`] is told in its own words.
pub proof fn law_guest_protection_error_in_words(e: GuestProtectionError, found: &str, r: String)
    requires
        call_ensures(GuestProtectionError::message, (&e, found), r),
    ensures
        e is NoProtectionAvailable ==> r@ == "guest protection requested but no guest protection available"@,
        e is TDXProtectionMustBeUsedWithCH ==> r@ == "TDX guest protection available and must be used with Cloud Hypervisor (set 'confidential_guest=true')"@,
        e is ExpectedTDXProtection ==> r@ == "Expected TDX protection, found "@ + found@,
{
}

} // verus!
