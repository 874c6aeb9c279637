//! Drives the Bowring fixed-point refinement, written out here over `f64`
//! values, through the library's bounded iteration driver, and holds the
//! result to the published reference values.

use ecef2lla::bowring::{run_to_convergence, ConvergenceStep, BOWRING_MAX_STEPS};

const WGS84_A: f64 = 6378137.000;
const WGS84_INVF: f64 = 298.257223563;

/// The state record of the Bowring refinement: current and previous
/// latitude estimate, prime-vertical radius, and height estimate.
struct BowringKernel {
    p: f64,
    z: f64,
    a: f64,
    eccsq: f64,
    e1sq: f64,
    phi: f64,
    phi_current: f64,
    rn: f64,
    h: f64,
}

impl BowringKernel {
    fn new(x: f64, y: f64, z: f64, a: f64, invf: f64) -> BowringKernel {
        let f = invf.recip();
        let b = a * (1.0 - f);
        let e1 = ((a * a - b * b) / (a * a)).sqrt();
        let e1sq = e1 * e1;
        let eccsq = 1.0 - (b * b) / (a * a);
        let p = (x * x + y * y).sqrt();
        let phi = (z / (p * (1.0 - e1sq))).atan();
        let rn = prime_vertical_radius(a, eccsq, phi);
        BowringKernel {
            p,
            z,
            a,
            eccsq,
            e1sq,
            phi,
            phi_current: phi,
            rn,
            h: 0.0,
        }
    }

    fn hae(&self, rn: f64, phi: f64) -> f64 {
        self.p / phi.cos() - rn
    }

    fn latitude_degrees(&self) -> f64 {
        self.phi_current.to_degrees()
    }

    fn height(&self) -> f64 {
        self.h
    }
}

fn prime_vertical_radius(a: f64, eccsq: f64, phi: f64) -> f64 {
    let slat = phi.sin();
    let dsq = 1.0 - eccsq * slat * slat;
    a / dsq.sqrt()
}

impl ConvergenceStep for BowringKernel {
    fn step(&mut self) -> bool {
        if (self.h - self.hae(self.rn, self.phi)).abs() <= 0.000001 {
            return true;
        }
        self.rn = prime_vertical_radius(self.a, self.eccsq, self.phi);
        self.h = self.hae(self.rn, self.phi);
        self.phi_current = self.phi;
        self.phi = (self.z / (self.p * (1.0 - self.e1sq * self.rn / (self.rn + self.h)))).atan();
        false
    }
}

fn longitude_degrees(x: f64, y: f64) -> f64 {
    if x.abs() + y.abs() < 1.0e-10 {
        0.0
    } else {
        (y / x).atan().to_degrees()
    }
}

#[test]
fn test_bowring() {
    let expected = (-76.26108657, 39.99277705, 230.920);
    let ll_tolerance: f64 = 0.00000001;
    let h_tolerance: f64 = 0.000001;

    let x: f64 = 1162172.3971573876;
    let y: f64 = -4753390.239612344;
    let z: f64 = 4077519.584501206;

    let mut kernel = BowringKernel::new(x, y, z, WGS84_A, WGS84_INVF);
    let outcome = run_to_convergence(&mut kernel, BOWRING_MAX_STEPS);
    assert!(outcome.converged);

    let lon = longitude_degrees(x, y);
    let lat = kernel.latitude_degrees();
    let h = kernel.height();
    println!("lon {0} lat {1} h {2}", lon, lat, h);
    assert!((lon - expected.0).abs() <= ll_tolerance);
    assert!((lat - expected.1).abs() <= ll_tolerance);
    assert!((h - expected.2).abs() <= h_tolerance);
}

#[test]
fn test_bowring_forward_inverse_round_trip() {
    let lon_deg: f64 = 12.3;
    let lat_deg: f64 = 45.6;
    let h: f64 = 789.0;
    let ll_tolerance: f64 = 0.00000001;
    let h_tolerance: f64 = 0.000001;

    // the closed-form forward conversion, LLA to ECEF
    let a = WGS84_A;
    let f = WGS84_INVF.recip();
    let b = a * (1.0 - f);
    let eccsq = 1.0 - (b * b) / (a * a);
    let lambda = lon_deg.to_radians();
    let phi = lat_deg.to_radians();
    let rn = prime_vertical_radius(a, eccsq, phi);
    let x = (rn + h) * phi.cos() * lambda.cos();
    let y = (rn + h) * phi.cos() * lambda.sin();
    let z = ((b * b) / (a * a) * rn + h) * phi.sin();

    let mut kernel = BowringKernel::new(x, y, z, WGS84_A, WGS84_INVF);
    let outcome = run_to_convergence(&mut kernel, BOWRING_MAX_STEPS);
    assert!(outcome.converged);

    assert!((longitude_degrees(x, y) - lon_deg).abs() <= ll_tolerance);
    assert!((kernel.latitude_degrees() - lat_deg).abs() <= ll_tolerance);
    assert!((kernel.height() - h).abs() <= h_tolerance);
}
