//! Vehicle profiles: the fixed data of a car.

use vstd::prelude::*;

verus! {

/// The most gears a profile may have: a gear index is a `u8`.
pub const MAX_GEARS: usize = 255;

/// A vehicle profile. It never changes once built.
///
/// `gear_ratios` lists the ratios from the lowest gear up, each in millionths
/// (`3_267_000` is a ratio of 3.267). `weight` is in kilograms, `torque` in
/// newton metres and `redline` in revolutions per minute.
#[derive(Debug)]
pub struct Car {
    pub name: String,
    pub horsepower: u32,
    pub weight: u32,
    pub torque: u32,
    pub redline: u32,
    pub gear_ratios: Vec<u32>,
}

/// A profile as contracts see it: the name as a sequence of characters and the
/// gear ratios as a sequence.
pub struct CarView {
    pub name: Seq<char>,
    pub horsepower: u32,
    pub weight: u32,
    pub torque: u32,
    pub redline: u32,
    pub gear_ratios: Seq<u32>,
}

impl CarView {
    /// A profile is usable when it has between one and `MAX_GEARS` gears and
    /// neither its weight nor its redline is zero (both are divisors).
    pub open spec fn wf(self) -> bool {
        &&& 1 <= self.gear_ratios.len() <= MAX_GEARS
        &&& self.weight >= 1
        &&& self.redline >= 1
    }

    /// Number of gears.
    pub open spec fn gears(self) -> int {
        self.gear_ratios.len() as int
    }

    /// Index of the highest gear.
    pub open spec fn top_gear(self) -> int {
        self.gear_ratios.len() - 1
    }
}

impl CarView {
    /// The light, agile preset.
    pub open spec fn civic() -> CarView {
        CarView {
            name: "Honda Civic Si"@,
            horsepower: 200,
            weight: 1300,
            torque: 192,
            redline: 8000,
            gear_ratios: seq![3_267_000u32, 1_967_000u32, 1_367_000u32, 1_033_000u32, 833_000u32],
        }
    }

    /// The balanced, high-power preset.
    pub open spec fn mustang() -> CarView {
        CarView {
            name: "Ford Mustang GT"@,
            horsepower: 450,
            weight: 1700,
            torque: 410,
            redline: 7500,
            gear_ratios: seq![3_660_000u32, 2_430_000u32, 1_690_000u32, 1_320_000u32, 1_000_000u32],
        }
    }

    /// The heavy preset with the most power and six gears.
    pub open spec fn gtr() -> CarView {
        CarView {
            name: "Nissan GT-R"@,
            horsepower: 565,
            weight: 1740,
            torque: 467,
            redline: 7000,
            gear_ratios: seq![
                4_056_000u32,
                2_301_000u32,
                1_595_000u32,
                1_248_000u32,
                1_001_000u32,
                796_000u32,
            ],
        }
    }
}

impl View for Car {
    type V = CarView;

    open spec fn view(&self) -> CarView {
        CarView {
            name: self.name@,
            horsepower: self.horsepower,
            weight: self.weight,
            torque: self.torque,
            redline: self.redline,
            gear_ratios: self.gear_ratios@,
        }
    }
}

impl Clone for Car {
    fn clone(&self) -> (res: Self)
        ensures
            res@ == self@,
    {
        let res = Car {
            name: self.name.clone(),
            horsepower: self.horsepower,
            weight: self.weight,
            torque: self.torque,
            redline: self.redline,
            gear_ratios: self.gear_ratios.clone(),
        };
        assert(res.gear_ratios@ =~= self.gear_ratios@);
        res
    }
}

impl Car {
    /// See [`CarView::wf`].
    pub open spec fn wf(&self) -> bool {
        self@.wf()
    }

    /// Builds a profile, or rejects the values: `None` exactly when the list of
    /// gear ratios is empty or longer than `MAX_GEARS`, or the weight or the
    /// redline is zero.
    pub fn new(
        name: String,
        horsepower: u32,
        weight: u32,
        torque: u32,
        redline: u32,
        gear_ratios: Vec<u32>,
    ) -> (res: Option<Car>)
        ensures
            res is Some <==> (1 <= gear_ratios@.len() <= MAX_GEARS && weight >= 1 && redline >= 1),
            res matches Some(car) ==> car@ == (CarView {
                name: name@,
                horsepower,
                weight,
                torque,
                redline,
                gear_ratios: gear_ratios@,
            }),
    {
        if gear_ratios.len() == 0 || gear_ratios.len() > MAX_GEARS || weight == 0 || redline == 0 {
            None
        } else {
            Some(Car { name, horsepower, weight, torque, redline, gear_ratios })
        }
    }

    /// Whether the profile is usable; public fields can be set to anything.
    pub fn is_valid(&self) -> (ok: bool)
        ensures
            ok == self.wf(),
    {
        1 <= self.gear_ratios.len() && self.gear_ratios.len() <= MAX_GEARS && self.weight >= 1
            && self.redline >= 1
    }

    /// The light, agile preset.
    pub fn civic() -> (car: Car)
        ensures
            car.wf(),
            car@ == CarView::civic(),
    {
        let mut gear_ratios: Vec<u32> = Vec::new();
        gear_ratios.push(3_267_000);
        gear_ratios.push(1_967_000);
        gear_ratios.push(1_367_000);
        gear_ratios.push(1_033_000);
        gear_ratios.push(833_000);
        assert(gear_ratios@ =~= seq![
            3_267_000u32,
            1_967_000u32,
            1_367_000u32,
            1_033_000u32,
            833_000u32,
        ]);
        Car {
            name: "Honda Civic Si".to_owned(),
            horsepower: 200,
            weight: 1300,
            torque: 192,
            redline: 8000,
            gear_ratios,
        }
    }

    /// The balanced, high-power preset.
    pub fn mustang() -> (car: Car)
        ensures
            car.wf(),
            car@ == CarView::mustang(),
    {
        let mut gear_ratios: Vec<u32> = Vec::new();
        gear_ratios.push(3_660_000);
        gear_ratios.push(2_430_000);
        gear_ratios.push(1_690_000);
        gear_ratios.push(1_320_000);
        gear_ratios.push(1_000_000);
        assert(gear_ratios@ =~= seq![
            3_660_000u32,
            2_430_000u32,
            1_690_000u32,
            1_320_000u32,
            1_000_000u32,
        ]);
        Car {
            name: "Ford Mustang GT".to_owned(),
            horsepower: 450,
            weight: 1700,
            torque: 410,
            redline: 7500,
            gear_ratios,
        }
    }

    /// The heavy preset with the most power and six gears.
    pub fn gtr() -> (car: Car)
        ensures
            car.wf(),
            car@ == CarView::gtr(),
    {
        let mut gear_ratios: Vec<u32> = Vec::new();
        gear_ratios.push(4_056_000);
        gear_ratios.push(2_301_000);
        gear_ratios.push(1_595_000);
        gear_ratios.push(1_248_000);
        gear_ratios.push(1_001_000);
        gear_ratios.push(796_000);
        assert(gear_ratios@ =~= seq![
            4_056_000u32,
            2_301_000u32,
            1_595_000u32,
            1_248_000u32,
            1_001_000u32,
            796_000u32,
        ]);
        Car {
            name: "Nissan GT-R".to_owned(),
            horsepower: 565,
            weight: 1740,
            torque: 467,
            redline: 7000,
            gear_ratios,
        }
    }
}

} // verus!
