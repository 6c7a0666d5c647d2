//! Partial withdrawal (PWD) assumptions: required minimum distributions,
//! free-withdrawal utilization, and the combined non-systematic withdrawal
//! rates.

use vstd::prelude::*;

use crate::fixed::{annual_to_monthly_rate, is_twelfth_root, lemma_rmul_le, rate_apply, rmul,
    spec_monthly_from_annual, RATE_ONE};
use crate::policy::QualStatus;

verus! {

/// The age from which required minimum distributions apply.
pub const RMD_START_AGE: u8 = 73;

/// The RMD rate assumed for ages beyond an empty table.
pub const RMD_EMPTY_FALLBACK: u64 = 2_000_000_000;

/// Required minimum distribution table by attained age.
#[derive(Clone, Debug)]
pub struct RmdTable {
    rates: Vec<(u8, u64)>,
}

/// First rate listed for exactly `age`, scanning from index `i`.
pub open spec fn spec_rmd_find_from(rates: Seq<(u8, u64)>, age: u8, i: int) -> Option<u64>
    decreases rates.len() - i,
{
    if i < 0 || i >= rates.len() {
        None
    } else if rates[i].0 == age {
        Some(rates[i].1)
    } else {
        spec_rmd_find_from(rates, age, i + 1)
    }
}

impl RmdTable {
    /// The table as `(age, annual rate)` pairs.
    pub closed spec fn entries(self) -> Seq<(u8, u64)> {
        self.rates@
    }

    /// Every listed rate is a genuine rate.
    pub open spec fn wf(self) -> bool {
        forall|i: int| 0 <= i < self.entries().len() ==> (#[trigger] self.entries()[i]).1
            <= RATE_ONE
    }

    /// The rate for an attained age: zero below the RMD start age, the
    /// listed rate at a listed age, and the last listed rate beyond the
    /// table.
    pub open spec fn spec_get_rate(self, attained_age: u8) -> u64 {
        if attained_age < RMD_START_AGE {
            0u64
        } else {
            match spec_rmd_find_from(self.entries(), attained_age, 0) {
                Some(r) => r,
                None => if self.entries().len() > 0 {
                    self.entries().last().1
                } else {
                    RMD_EMPTY_FALLBACK
                },
            }
        }
    }

    /// Create from rates loaded at the boundary.
    pub fn from_loaded(rates: Vec<(u8, u64)>) -> (r: Self)
        requires
            forall|i: int| 0 <= i < rates@.len() ==> (#[trigger] rates@[i]).1 <= RATE_ONE,
        ensures
            r.entries() == rates@,
            r.wf(),
    {
        Self { rates }
    }

    /// The default RMD table, ages 73 to 120.
    pub fn default() -> (r: Self)
        ensures
            r.entries() =~= spec_default_rmd_entries(),
            r.wf(),
    {
        let rates: Vec<(u8, u64)> = vec![
            (73, 377_358_491),
            (74, 392_156_863),
            (75, 406_504_065),
            (76, 421_940_928),
            (77, 436_681_223),
            (78, 454_545_455),
            (79, 473_933_649),
            (80, 495_049_505),
            (81, 515_463_918),
            (82, 540_540_541),
            (83, 564_971_751),
            (84, 595_238_095),
            (85, 625_000_000),
            (86, 657_894_737),
            (87, 694_444_444),
            (88, 729_927_007),
            (89, 775_193_798),
            (90, 819_672_131),
            (91, 869_565_217),
            (92, 925_925_926),
            (93, 990_099_010),
            (94, 1_052_631_579),
            (95, 1_123_595_506),
            (96, 1_190_476_190),
            (97, 1_282_051_282),
            (98, 1_369_863_014),
            (99, 1_470_588_235),
            (100, 1_562_500_000),
            (101, 1_666_666_667),
            (102, 1_785_714_286),
            (103, 1_923_076_923),
            (104, 2_040_816_327),
            (105, 2_173_913_043),
            (106, 2_325_581_395),
            (107, 2_439_024_390),
            (108, 2_564_102_564),
            (109, 2_702_702_703),
            (110, 2_857_142_857),
            (111, 2_941_176_471),
            (112, 3_030_303_030),
            (113, 3_225_806_452),
            (114, 3_333_333_333),
            (115, 3_448_275_862),
            (116, 3_571_428_571),
            (117, 3_703_703_704),
            (118, 4_000_000_000),
            (119, 4_347_826_087),
            (120, 5_000_000_000),
        ];
        Self { rates }
    }

    /// RMD rate for an attained age.
    pub fn get_rate(&self, attained_age: u8) -> (r: u64)
        ensures
            r == self.spec_get_rate(attained_age),
            self.wf() ==> r <= RATE_ONE,
    {
        if attained_age < RMD_START_AGE {
            return 0;
        }
        let mut i: usize = 0;
        while i < self.rates.len()
            invariant
                0 <= i <= self.rates@.len(),
                attained_age >= RMD_START_AGE,
                spec_rmd_find_from(self.rates@, attained_age, 0) == spec_rmd_find_from(
                    self.rates@,
                    attained_age,
                    i as int,
                ),
            decreases self.rates@.len() - i,
        {
            let (age, rate) = self.rates[i];
            if age == attained_age {
                proof {
                    assert(spec_rmd_find_from(self.rates@, attained_age, i as int) == Some(
                        self.rates@[i as int].1,
                    ));
                    if self.wf() {
                        assert(self.entries()[i as int].1 <= RATE_ONE);
                    }
                }
                return rate;
            }
            i += 1;
        }
        proof {
            if self.wf() && self.rates@.len() > 0 {
                assert(self.entries()[self.rates@.len() - 1].1 <= RATE_ONE);
            }
        }
        if self.rates.len() > 0 {
            self.rates[self.rates.len() - 1].1
        } else {
            RMD_EMPTY_FALLBACK
        }
    }

    /// RMD rate for qualified money; non-qualified money has none.
    pub fn get_rate_if_qualified(&self, attained_age: u8, qual_status: QualStatus) -> (r: u64)
        ensures
            r == match qual_status {
                QualStatus::Q => self.spec_get_rate(attained_age),
                QualStatus::N => 0u64,
            },
    {
        match qual_status {
            QualStatus::Q => self.get_rate(attained_age),
            QualStatus::N => 0,
        }
    }
}

/// The default RMD table as a mathematical table.
pub open spec fn spec_default_rmd_entries() -> Seq<(u8, u64)> {
    seq![
        (73u8, 377_358_491u64),
        (74u8, 392_156_863u64),
        (75u8, 406_504_065u64),
        (76u8, 421_940_928u64),
        (77u8, 436_681_223u64),
        (78u8, 454_545_455u64),
        (79u8, 473_933_649u64),
        (80u8, 495_049_505u64),
        (81u8, 515_463_918u64),
        (82u8, 540_540_541u64),
        (83u8, 564_971_751u64),
        (84u8, 595_238_095u64),
        (85u8, 625_000_000u64),
        (86u8, 657_894_737u64),
        (87u8, 694_444_444u64),
        (88u8, 729_927_007u64),
        (89u8, 775_193_798u64),
        (90u8, 819_672_131u64),
        (91u8, 869_565_217u64),
        (92u8, 925_925_926u64),
        (93u8, 990_099_010u64),
        (94u8, 1_052_631_579u64),
        (95u8, 1_123_595_506u64),
        (96u8, 1_190_476_190u64),
        (97u8, 1_282_051_282u64),
        (98u8, 1_369_863_014u64),
        (99u8, 1_470_588_235u64),
        (100u8, 1_562_500_000u64),
        (101u8, 1_666_666_667u64),
        (102u8, 1_785_714_286u64),
        (103u8, 1_923_076_923u64),
        (104u8, 2_040_816_327u64),
        (105u8, 2_173_913_043u64),
        (106u8, 2_325_581_395u64),
        (107u8, 2_439_024_390u64),
        (108u8, 2_564_102_564u64),
        (109u8, 2_702_702_703u64),
        (110u8, 2_857_142_857u64),
        (111u8, 2_941_176_471u64),
        (112u8, 3_030_303_030u64),
        (113u8, 3_225_806_452u64),
        (114u8, 3_333_333_333u64),
        (115u8, 3_448_275_862u64),
        (116u8, 3_571_428_571u64),
        (117u8, 3_703_703_704u64),
        (118u8, 4_000_000_000u64),
        (119u8, 4_347_826_087u64),
        (120u8, 5_000_000_000u64),
    ]
}

/// The utilization assumed for policy years beyond an empty table.
pub const UTILIZATION_EMPTY_FALLBACK: u64 = 4_000_000_000;

/// Free-withdrawal utilization by policy year, before income activation.
#[derive(Clone, Debug)]
pub struct FreeWithdrawalUtilization {
    rates: Vec<u64>,
}

impl FreeWithdrawalUtilization {
    /// Utilization rates, policy year 1 first.
    pub closed spec fn entries(self) -> Seq<u64> {
        self.rates@
    }

    pub open spec fn wf(self) -> bool {
        forall|i: int| 0 <= i < self.entries().len() ==> self.entries()[i] <= RATE_ONE
    }

    /// Utilization for a policy year: the listed rate, with the last rate
    /// extrapolated beyond the table.
    pub open spec fn spec_get_rate(self, policy_year: int) -> u64 {
        let idx = if policy_year <= 0 {
            0
        } else {
            policy_year - 1
        };
        if idx < self.entries().len() {
            self.entries()[idx]
        } else if self.entries().len() > 0 {
            self.entries().last()
        } else {
            UTILIZATION_EMPTY_FALLBACK
        }
    }

    /// Create from rates loaded at the boundary.
    pub fn from_loaded(rates: Vec<u64>) -> (r: Self)
        requires
            forall|i: int| 0 <= i < rates@.len() ==> rates@[i] <= RATE_ONE,
        ensures
            r.entries() == rates@,
            r.wf(),
    {
        Self { rates }
    }

    /// Create from individual year rates; the fourth applies to year 4 and
    /// every later year.
    pub fn from_rates(year1: u64, year2: u64, year3: u64, year4_plus: u64) -> (r: Self)
        requires
            year1 <= RATE_ONE,
            year2 <= RATE_ONE,
            year3 <= RATE_ONE,
            year4_plus <= RATE_ONE,
        ensures
            r.entries() =~= seq![year1, year2, year3, year4_plus],
            r.wf(),
    {
        Self { rates: vec![year1, year2, year3, year4_plus] }
    }

    /// The default utilization: 10%, 20%, 30%, then 40% from year 4 on.
    pub fn default() -> (r: Self)
        ensures
            r.entries() =~= seq![
                1_000_000_000u64,
                2_000_000_000u64,
                3_000_000_000u64,
                4_000_000_000u64,
            ],
            r.wf(),
    {
        Self { rates: vec![1_000_000_000, 2_000_000_000, 3_000_000_000, 4_000_000_000] }
    }

    /// Utilization rate for a policy year.
    pub fn get_rate(&self, policy_year: u32) -> (r: u64)
        ensures
            r == self.spec_get_rate(policy_year as int),
            self.wf() ==> r <= RATE_ONE,
    {
        let idx = if policy_year == 0 {
            0
        } else {
            (policy_year - 1) as usize
        };
        proof {
            if self.wf() {
                if (idx as int) < self.entries().len() {
                    assert(self.entries()[idx as int] <= RATE_ONE);
                } else if self.entries().len() > 0 {
                    assert(self.entries()[self.entries().len() - 1] <= RATE_ONE);
                }
            }
        }
        if idx < self.rates.len() {
            self.rates[idx]
        } else if self.rates.len() > 0 {
            self.rates[self.rates.len() - 1]
        } else {
            UTILIZATION_EMPTY_FALLBACK
        }
    }
}

/// Combined partial-withdrawal assumptions.
#[derive(Clone, Debug)]
pub struct PwdAssumptions {
    pub rmd: RmdTable,
    pub free_utilization: FreeWithdrawalUtilization,
}

impl PwdAssumptions {
    pub open spec fn wf(self) -> bool {
        &&& self.rmd.wf()
        &&& self.free_utilization.wf()
    }

    /// The default assumptions.
    pub fn default() -> (r: Self)
        ensures
            r.rmd.entries() =~= spec_default_rmd_entries(),
            r.free_utilization.entries() =~= seq![
                1_000_000_000u64,
                2_000_000_000u64,
                3_000_000_000u64,
                4_000_000_000u64,
            ],
            r.wf(),
    {
        Self { rmd: RmdTable::default(), free_utilization: FreeWithdrawalUtilization::default() }
    }

    /// Create from tables loaded at the boundary.
    pub fn from_loaded(rmd_rates: Vec<(u8, u64)>, free_withdrawal_util: Vec<u64>) -> (r: Self)
        requires
            forall|i: int| 0 <= i < rmd_rates@.len() ==> (#[trigger] rmd_rates@[i]).1 <= RATE_ONE,
            forall|i: int| 0 <= i < free_withdrawal_util@.len() ==> free_withdrawal_util@[i]
                <= RATE_ONE,
        ensures
            r.rmd.entries() == rmd_rates@,
            r.free_utilization.entries() == free_withdrawal_util@,
            r.wf(),
    {
        Self {
            rmd: RmdTable::from_loaded(rmd_rates),
            free_utilization: FreeWithdrawalUtilization::from_loaded(free_withdrawal_util),
        }
    }

    /// The free partial withdrawal percentage. In policy year 1 only the RMD
    /// applies (qualified money) or nothing (non-qualified). Later years:
    /// qualified money takes the larger of the base free percentage and the
    /// RMD rate; non-qualified money takes the base free percentage.
    pub open spec fn spec_fpw_pct(
        self,
        policy_year: int,
        attained_age: u8,
        qual_status: QualStatus,
        free_pct: u64,
    ) -> u64 {
        if policy_year == 1 {
            match qual_status {
                QualStatus::Q => self.rmd.spec_get_rate(attained_age),
                QualStatus::N => 0u64,
            }
        } else {
            match qual_status {
                QualStatus::Q => {
                    let rmd_rate = self.rmd.spec_get_rate(attained_age);
                    if free_pct > rmd_rate {
                        free_pct
                    } else {
                        rmd_rate
                    }
                },
                QualStatus::N => free_pct,
            }
        }
    }

    /// Free partial withdrawal percentage for a policy year, age and
    /// qualification status.
    pub fn get_fpw_pct(
        &self,
        policy_year: u32,
        attained_age: u8,
        qual_status: QualStatus,
        free_pct: u64,
    ) -> (r: u64)
        requires
            self.wf(),
            free_pct <= RATE_ONE,
        ensures
            r == self.spec_fpw_pct(policy_year as int, attained_age, qual_status, free_pct),
            r <= RATE_ONE,
    {
        if policy_year == 1 {
            return match qual_status {
                QualStatus::Q => self.rmd.get_rate(attained_age),
                QualStatus::N => 0,
            };
        }
        match qual_status {
            QualStatus::Q => {
                let rmd_rate = self.rmd.get_rate(attained_age);
                if free_pct > rmd_rate {
                    free_pct
                } else {
                    rmd_rate
                }
            },
            QualStatus::N => free_pct,
        }
    }

    /// Annual non-systematic withdrawal rate: zero once income is activated,
    /// otherwise the free percentage times its utilization.
    #[verifier::opaque]
    pub open spec fn spec_annual_pwd_rate(
        self,
        policy_year: int,
        attained_age: u8,
        qual_status: QualStatus,
        income_activated: bool,
        free_pct: u64,
    ) -> int {
        if income_activated {
            0
        } else {
            rmul(
                self.spec_fpw_pct(policy_year, attained_age, qual_status, free_pct) as int,
                self.free_utilization.spec_get_rate(policy_year) as int,
            )
        }
    }

    /// Annual non-systematic withdrawal rate.
    pub fn annual_pwd_rate(
        &self,
        policy_year: u32,
        attained_age: u8,
        qual_status: QualStatus,
        income_activated: bool,
        free_pct: u64,
    ) -> (r: u64)
        requires
            self.wf(),
            free_pct <= RATE_ONE,
        ensures
            r == self.spec_annual_pwd_rate(
                policy_year as int,
                attained_age,
                qual_status,
                income_activated,
                free_pct,
            ),
            r <= RATE_ONE,
            income_activated ==> r == 0,
    {
        proof {
            reveal(PwdAssumptions::spec_annual_pwd_rate);
        }
        if income_activated {
            return 0;
        }
        let free_rate = self.get_fpw_pct(policy_year, attained_age, qual_status, free_pct);
        let utilization = self.free_utilization.get_rate(policy_year);
        proof {
            lemma_rmul_le(free_rate as int, utilization as int);
        }
        rate_apply(free_rate, utilization)
    }

    /// Monthly non-systematic withdrawal rate, `1 - (1 - annual)^(1/12)`.
    pub fn monthly_pwd_rate(
        &self,
        policy_year: u32,
        attained_age: u8,
        qual_status: QualStatus,
        income_activated: bool,
        free_pct: u64,
    ) -> (r: u64)
        requires
            self.wf(),
            free_pct <= RATE_ONE,
        ensures
            ({
                let annual = self.spec_annual_pwd_rate(
                    policy_year as int,
                    attained_age,
                    qual_status,
                    income_activated,
                    free_pct,
                );
                &&& is_twelfth_root(RATE_ONE - annual, RATE_ONE - r)
                &&& r == spec_monthly_from_annual(annual)
                &&& r <= annual
            }),
            r <= RATE_ONE,
            income_activated ==> r == 0,
    {
        let annual = self.annual_pwd_rate(
            policy_year,
            attained_age,
            qual_status,
            income_activated,
            free_pct,
        );
        annual_to_monthly_rate(annual)
    }

    /// Monthly non-systematic withdrawal rate with the first-year business
    /// rule applied: no partial withdrawals at all in policy year 1.
    pub fn monthly_pwd_rate_adjusted(
        &self,
        policy_year: u32,
        _month_in_policy_year: u32,
        attained_age: u8,
        qual_status: QualStatus,
        income_activated: bool,
        free_pct: u64,
    ) -> (r: u64)
        requires
            self.wf(),
            free_pct <= RATE_ONE,
        ensures
            policy_year == 1 ==> r == 0,
            policy_year != 1 ==> ({
                let annual = self.spec_annual_pwd_rate(
                    policy_year as int,
                    attained_age,
                    qual_status,
                    income_activated,
                    free_pct,
                );
                &&& is_twelfth_root(RATE_ONE - annual, RATE_ONE - r)
                &&& r == spec_monthly_from_annual(annual)
                &&& r <= annual
            }),
            r <= RATE_ONE,
            income_activated ==> r == 0,
    {
        if policy_year == 1 {
            return 0;
        }
        self.monthly_pwd_rate(policy_year, attained_age, qual_status, income_activated, free_pct)
    }
}

/// A lookup in a well-bounded RMD table yields a genuine rate.
pub proof fn lemma_rmd_find_bound(rates: Seq<(u8, u64)>, age: u8, i: int)
    requires
        forall|j: int| 0 <= j < rates.len() ==> (#[trigger] rates[j]).1 <= RATE_ONE,
    ensures
        match spec_rmd_find_from(rates, age, i) {
            Some(r) => r <= RATE_ONE,
            None => true,
        },
    decreases rates.len() - i,
{
    if i < 0 || i >= rates.len() {
    } else if rates[i].0 == age {
    } else {
        lemma_rmd_find_bound(rates, age, i + 1);
    }
}

/// The RMD rate for any age is a genuine rate.
pub proof fn lemma_rmd_rate_bound(t: RmdTable, age: u8)
    requires
        t.wf(),
    ensures
        t.spec_get_rate(age) <= RATE_ONE,
{
    lemma_rmd_find_bound(t.entries(), age, 0);
    if t.entries().len() > 0 {
        assert(t.entries()[t.entries().len() - 1].1 <= RATE_ONE);
    }
}

/// The utilization for any policy year is a genuine rate.
pub proof fn lemma_utilization_bound(t: FreeWithdrawalUtilization, policy_year: int)
    requires
        t.wf(),
    ensures
        t.spec_get_rate(policy_year) <= RATE_ONE,
{
    let idx = if policy_year <= 0 {
        0int
    } else {
        policy_year - 1
    };
    if idx < t.entries().len() {
        assert(t.entries()[idx] <= RATE_ONE);
    } else if t.entries().len() > 0 {
        assert(t.entries()[t.entries().len() - 1] <= RATE_ONE);
    }
}

/// The annual non-systematic withdrawal rate is a genuine rate.
pub proof fn lemma_annual_pwd_bound(
    p: PwdAssumptions,
    policy_year: int,
    attained_age: u8,
    qual_status: QualStatus,
    income_activated: bool,
    free_pct: u64,
)
    requires
        p.wf(),
        free_pct <= RATE_ONE,
    ensures
        0 <= p.spec_annual_pwd_rate(
            policy_year,
            attained_age,
            qual_status,
            income_activated,
            free_pct,
        ) <= RATE_ONE,
{
    reveal(PwdAssumptions::spec_annual_pwd_rate);
    if !income_activated {
        lemma_rmd_rate_bound(p.rmd, attained_age);
        lemma_utilization_bound(p.free_utilization, policy_year);
        let fpw = p.spec_fpw_pct(policy_year, attained_age, qual_status, free_pct);
        lemma_rmul_le(fpw as int, p.free_utilization.spec_get_rate(policy_year) as int);
    }
}

} // verus!
