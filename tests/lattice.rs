use mdsim::{fcc_layers, fcc_sites, SimError};

#[test]
fn layers_of_whole_blocks() {
    assert_eq!(fcc_layers(0), Ok(0));
    assert_eq!(fcc_layers(4), Ok(1));
    assert_eq!(fcc_layers(32), Ok(2));
    assert_eq!(fcc_layers(108), Ok(3));
    assert_eq!(fcc_layers(256), Ok(4));
    assert_eq!(fcc_layers(864), Ok(6));
}

#[test]
fn five_hundred_particles_is_five_layers() {
    // 4 * 5^3 == 500
    assert_eq!(fcc_layers(500), Ok(5));
}

#[test]
fn layers_of_partial_blocks_fail() {
    assert_eq!(fcc_layers(1), Err(SimError::InvalidParticleCount));
    assert_eq!(fcc_layers(5), Err(SimError::InvalidParticleCount));
    assert_eq!(fcc_layers(31), Err(SimError::InvalidParticleCount));
    assert_eq!(fcc_layers(33), Err(SimError::InvalidParticleCount));
    assert_eq!(fcc_layers(499), Err(SimError::InvalidParticleCount));
    assert_eq!(fcc_layers(501), Err(SimError::InvalidParticleCount));
}

#[test]
fn layers_at_the_largest_count() {
    assert_eq!(fcc_layers(usize::MAX), Err(SimError::InvalidParticleCount));
    assert_eq!(fcc_layers(4 * 1_000_000 * 1_000_000 * 1_000_000), Ok(1_000_000));
}

#[test]
fn sites_of_one_cell() {
    assert_eq!(fcc_sites(1), vec![(0, 0, 0), (0, 1, 1), (1, 0, 1), (1, 1, 0)]);
}

#[test]
fn sites_of_empty_block() {
    assert!(fcc_sites(0).is_empty());
}

#[test]
fn sites_of_two_cells_per_edge() {
    let sites = fcc_sites(2);
    assert_eq!(sites.len(), 32);
    assert_eq!(&sites[..4], &[(0, 0, 0), (0, 0, 2), (0, 1, 1), (0, 1, 3)]);
    assert_eq!(sites[31], (3, 3, 2));
    let mut expected = Vec::new();
    for x in 0..4usize {
        for y in 0..4usize {
            for z in 0..4usize {
                if (x + y + z) % 2 == 0 {
                    expected.push((x, y, z));
                }
            }
        }
    }
    assert_eq!(sites, expected);
}
