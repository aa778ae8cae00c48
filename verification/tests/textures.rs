use three_d::consts;
use three_d::context::{Command, Context, Target};
use three_d::error::Error;
use three_d::mip::{calculate_number_of_mip_maps, log2_floor};
use three_d::state::{ClearState, Format, Interpolation, Wrapping};
use three_d::texture::{Float32, Texture2DArray};

fn array(
    context: &mut Context,
    width: u32,
    height: u32,
    depth: u32,
    mip: Option<Interpolation>,
) -> Texture2DArray<u8> {
    Texture2DArray::<u8>::new_empty(
        context,
        width,
        height,
        depth,
        Interpolation::Linear,
        Interpolation::Linear,
        mip,
        Wrapping::ClampToEdge,
        Wrapping::ClampToEdge,
        Format::RGBA,
    )
    .unwrap()
}

#[test]
fn log2_floor_of_small_numbers() {
    assert_eq!(log2_floor(0), 0);
    assert_eq!(log2_floor(1), 0);
    assert_eq!(log2_floor(2), 1);
    assert_eq!(log2_floor(3), 1);
    assert_eq!(log2_floor(4), 2);
    assert_eq!(log2_floor(1023), 9);
    assert_eq!(log2_floor(1024), 10);
    assert_eq!(log2_floor(u32::MAX), 31);
}

#[test]
fn no_mip_filter_gives_one_level() {
    assert_eq!(calculate_number_of_mip_maps(None, 4, 4), 1);
    assert_eq!(calculate_number_of_mip_maps(None, 1024, 3), 1);
    assert_eq!(calculate_number_of_mip_maps(None, 0, 0), 1);
    let mut context = Context::new();
    let texture = array(&mut context, 512, 256, 3, None);
    assert_eq!(texture.number_of_mip_maps(), 1);
}

#[test]
fn mip_filter_gives_one_level_per_halving() {
    assert_eq!(calculate_number_of_mip_maps(Some(Interpolation::Nearest), 4, 4), 3);
    assert_eq!(calculate_number_of_mip_maps(Some(Interpolation::Nearest), 5, 4), 3);
    assert_eq!(calculate_number_of_mip_maps(Some(Interpolation::Nearest), 7, 2), 3);
    assert_eq!(calculate_number_of_mip_maps(Some(Interpolation::Nearest), 8, 2), 4);
    assert_eq!(calculate_number_of_mip_maps(Some(Interpolation::Nearest), 2, 256), 9);
    assert_eq!(calculate_number_of_mip_maps(Some(Interpolation::Nearest), u32::MAX, 1), 32);
}

#[test]
fn last_mip_level_is_not_below_one_texel() {
    let sides: [u32; 8] = [1, 2, 3, 4, 100, 255, 256, 4097];
    for w in sides {
        for h in sides {
            let levels = calculate_number_of_mip_maps(Some(Interpolation::Nearest), w, h);
            let side = w.max(h) as u64;
            assert!((1u64 << (levels - 1)) <= side);
            assert!(side < (1u64 << levels));
        }
    }
}

#[test]
fn degenerate_texture_has_one_level() {
    assert_eq!(calculate_number_of_mip_maps(Some(Interpolation::Nearest), 1, 1), 1);
    assert_eq!(calculate_number_of_mip_maps(Some(Interpolation::Nearest), 0, 0), 1);
    assert_eq!(calculate_number_of_mip_maps(Some(Interpolation::Nearest), 0, 1), 1);
    let mut context = Context::new();
    let texture = array(&mut context, 1, 1, 4, Some(Interpolation::Linear));
    assert_eq!(texture.number_of_mip_maps(), 1);
    let expected = Command::TextureParameters {
        target: consts::TEXTURE_2D_ARRAY,
        texture: 1,
        min_filter: Interpolation::Linear,
        mag_filter: Interpolation::Linear,
        mip_map_filter: None,
        wrap_s: Wrapping::ClampToEdge,
        wrap_t: Wrapping::ClampToEdge,
    };
    assert_eq!(context.commands()[1], expected);
}

#[test]
fn four_by_four_array_with_two_layers() {
    let mut context = Context::new();
    let texture = array(&mut context, 4, 4, 2, Some(Interpolation::Linear));
    assert_eq!(texture.number_of_mip_maps(), 3);
    assert_eq!(texture.depth(), 2);
    assert_eq!(texture.width(), 4);
    assert_eq!(texture.height(), 4);
    assert_eq!(texture.format(), Format::RGBA);
    assert!(texture.mips_current());
    let expected = vec![
        Command::CreateTexture { texture: 1 },
        Command::TextureParameters {
            target: consts::TEXTURE_2D_ARRAY,
            texture: 1,
            min_filter: Interpolation::Linear,
            mag_filter: Interpolation::Linear,
            mip_map_filter: Some(Interpolation::Linear),
            wrap_s: Wrapping::ClampToEdge,
            wrap_t: Wrapping::ClampToEdge,
        },
        Command::BindTexture { target: consts::TEXTURE_2D_ARRAY, texture: 1 },
        Command::TexStorage3D {
            target: consts::TEXTURE_2D_ARRAY,
            levels: 3,
            internal_format: consts::RGBA8,
            width: 4,
            height: 4,
            depth: 2,
        },
    ];
    assert_eq!(context.commands(), &expected);
}

#[test]
fn unsupported_format_is_a_device_error() {
    let mut context = Context::new();
    let texture = Texture2DArray::<Float32>::new_empty(
        &mut context,
        4,
        4,
        1,
        Interpolation::Nearest,
        Interpolation::Nearest,
        None,
        Wrapping::Repeat,
        Wrapping::Repeat,
        Format::SRGB,
    );
    assert!(matches!(texture, Err(Error::DeviceResourceError)));
    assert!(context.commands().is_empty());
}

#[test]
fn mip_chain_on_unfilterable_type_is_a_device_error() {
    let mut context = Context::new();
    let refused = Texture2DArray::<Float32>::new_empty(
        &mut context,
        4,
        4,
        1,
        Interpolation::Nearest,
        Interpolation::Nearest,
        Some(Interpolation::Nearest),
        Wrapping::Repeat,
        Wrapping::Repeat,
        Format::RGBA,
    );
    assert!(matches!(refused, Err(Error::DeviceResourceError)));
    assert!(context.commands().is_empty());
    let single = Texture2DArray::<Float32>::new_empty(
        &mut context,
        1,
        1,
        1,
        Interpolation::Nearest,
        Interpolation::Nearest,
        Some(Interpolation::Nearest),
        Wrapping::Repeat,
        Wrapping::Repeat,
        Format::RGBA,
    );
    assert_eq!(single.unwrap().number_of_mip_maps(), 1);
}

#[test]
fn write_to_layer_one_leaves_layer_zero_alone() {
    let mut context = Context::new();
    let mut texture = array(&mut context, 4, 4, 2, None);
    context.take_commands();
    let one = 1.0f32.to_bits();
    let zero = 0.0f32.to_bits();
    let result = texture.write(
        &mut context,
        &[1],
        ClearState::color(zero, zero, zero, one),
        |c| (c, Ok(())),
    );
    assert_eq!(result, Ok(()));
    let expected = vec![
        Command::CreateFramebuffer { framebuffer: 2 },
        Command::BindFramebuffer { target: consts::DRAW_FRAMEBUFFER, framebuffer: 2 },
        Command::DrawBuffers { count: 1 },
        Command::FramebufferTextureLayer {
            target: consts::DRAW_FRAMEBUFFER,
            attachment: consts::COLOR_ATTACHMENT0,
            texture: 1,
            level: 0,
            layer: 1,
        },
        Command::Clear {
            state: ClearState {
                red: Some(zero),
                green: Some(zero),
                blue: Some(zero),
                alpha: Some(one),
                depth: None,
            },
        },
        Command::BindFramebuffer { target: consts::DRAW_FRAMEBUFFER, framebuffer: 0 },
        Command::DeleteFramebuffer { framebuffer: 2 },
    ];
    assert_eq!(context.commands(), &expected);
    for command in context.commands() {
        if let Command::FramebufferTextureLayer { layer, .. } = command {
            assert_ne!(*layer, 0);
        }
    }
}

#[test]
fn write_attaches_layers_in_slot_order() {
    let mut context = Context::new();
    let mut texture = array(&mut context, 8, 8, 6, None);
    context.take_commands();
    let result = texture.write(&mut context, &[5, 0, 3], ClearState::none(), |c| (c, Ok(())));
    assert_eq!(result, Ok(()));
    let commands = context.commands();
    assert_eq!(commands[2], Command::DrawBuffers { count: 3 });
    let layers: [u32; 3] = [5, 0, 3];
    for slot in 0..3usize {
        assert_eq!(
            commands[3 + slot],
            Command::FramebufferTextureLayer {
                target: consts::DRAW_FRAMEBUFFER,
                attachment: consts::COLOR_ATTACHMENT0 + slot as u32,
                texture: 1,
                level: 0,
                layer: layers[slot],
            }
        );
    }
    assert_eq!(commands.len(), 8);
}

#[test]
fn write_clears_colour_only() {
    let mut context = Context::new();
    let mut texture = array(&mut context, 4, 4, 2, None);
    context.take_commands();
    texture
        .write(&mut context, &[0], ClearState::color_and_depth(1, 2, 3, 4, 5), |c| (c, Ok(())))
        .unwrap();
    assert_eq!(context.commands()[4], Command::Clear { state: ClearState::color(1, 2, 3, 4) });
    context.take_commands();
    texture.write(&mut context, &[0], ClearState::depth(7), |c| (c, Ok(()))).unwrap();
    assert!(!context.commands().iter().any(|c| matches!(c, Command::Clear { .. })));
}

#[test]
fn write_restores_the_target_after_success() {
    let mut context = Context::new();
    let mut texture = array(&mut context, 4, 4, 2, None);
    let before = context.target();
    assert_eq!(before, Target { framebuffer: 0, texture: 0, has_depth: true });
    let mut seen = Target { framebuffer: 0, texture: 0, has_depth: true };
    let result = texture.write(&mut context, &[0, 1], ClearState::none(), |c| {
        seen = c.target();
        (c, Ok(()))
    });
    assert_eq!(result, Ok(()));
    assert_eq!(seen, Target { framebuffer: 2, texture: 1, has_depth: false });
    assert_eq!(context.target(), before);
}

#[test]
fn write_restores_the_target_after_failure() {
    let mut context = Context::new();
    let mut texture = array(&mut context, 4, 4, 2, None);
    let before = context.target();
    let result = texture.write(&mut context, &[0], ClearState::none(), |c| {
        (c, Err(Error::MissingBinding("fogDensity".to_string())))
    });
    assert_eq!(result, Err(Error::MissingBinding("fogDensity".to_string())));
    assert_eq!(context.target(), before);
    let last = context.commands().len() - 1;
    assert_eq!(
        context.commands()[last - 1],
        Command::BindFramebuffer { target: consts::DRAW_FRAMEBUFFER, framebuffer: 0 }
    );
    assert_eq!(context.commands()[last], Command::DeleteFramebuffer { framebuffer: 2 });
}

#[test]
fn nested_writes_restore_in_turn() {
    let mut context = Context::new();
    let mut outer = array(&mut context, 4, 4, 2, None);
    let mut inner = array(&mut context, 4, 4, 2, None);
    let mut during = Target { framebuffer: 0, texture: 0, has_depth: true };
    let mut between = Target { framebuffer: 0, texture: 0, has_depth: true };
    let result = outer.write(&mut context, &[0], ClearState::none(), |mut c| {
        let r = inner.write(&mut c, &[1], ClearState::none(), |d| {
            during = d.target();
            (d, Ok(()))
        });
        between = c.target();
        (c, r)
    });
    assert_eq!(result, Ok(()));
    assert_eq!(during, Target { framebuffer: 4, texture: 2, has_depth: false });
    assert_eq!(between, Target { framebuffer: 3, texture: 1, has_depth: false });
    assert_eq!(context.target(), Target { framebuffer: 0, texture: 0, has_depth: true });
}

#[test]
fn write_refuses_a_layer_the_texture_lacks() {
    let mut context = Context::new();
    let mut texture = array(&mut context, 4, 4, 2, Some(Interpolation::Linear));
    context.take_commands();
    let mut ran = false;
    let result = texture.write(&mut context, &[0, 2], ClearState::none(), |c| {
        ran = true;
        (c, Ok(()))
    });
    assert_eq!(result, Err(Error::UnsupportedConfiguration));
    assert!(!ran);
    assert!(texture.mips_current());
    assert_eq!(context.target(), Target { framebuffer: 0, texture: 0, has_depth: true });
    let expected = vec![
        Command::CreateFramebuffer { framebuffer: 2 },
        Command::DeleteFramebuffer { framebuffer: 2 },
    ];
    assert_eq!(context.commands(), &expected);
}

#[test]
fn write_refuses_more_layers_than_outputs() {
    let mut context = Context::new();
    let mut texture = array(&mut context, 4, 4, 64, None);
    let layers: Vec<u32> = (0..33).collect();
    let result = texture.write(&mut context, &layers, ClearState::none(), |c| (c, Ok(())));
    assert_eq!(result, Err(Error::UnsupportedConfiguration));
    let fits: Vec<u32> = (0..32).collect();
    let result = texture.write(&mut context, &fits, ClearState::none(), |c| (c, Ok(())));
    assert_eq!(result, Ok(()));
}

#[test]
fn generating_mip_maps_twice_is_as_once() {
    let mut context = Context::new();
    let mut texture = array(&mut context, 4, 4, 2, Some(Interpolation::Linear));
    texture.write(&mut context, &[0], ClearState::color(0, 0, 0, 0), |c| (c, Ok(()))).unwrap();
    assert!(!texture.mips_current());
    context.take_commands();
    texture.generate_mip_maps(&mut context);
    let once = context.take_commands();
    assert!(texture.mips_current());
    texture.generate_mip_maps(&mut context);
    let twice = context.take_commands();
    assert!(texture.mips_current());
    assert_eq!(once, twice);
    let expected = vec![
        Command::BindTexture { target: consts::TEXTURE_2D_ARRAY, texture: 1 },
        Command::GenerateMipmap { target: consts::TEXTURE_2D_ARRAY },
    ];
    assert_eq!(once, expected);
}

#[test]
fn generating_mip_maps_of_one_level_does_nothing() {
    let mut context = Context::new();
    let mut texture = array(&mut context, 4, 4, 2, None);
    texture.write(&mut context, &[0], ClearState::none(), |c| (c, Ok(()))).unwrap();
    assert!(texture.mips_current());
    context.take_commands();
    texture.generate_mip_maps(&mut context);
    assert!(context.commands().is_empty());
}

#[test]
fn texture_binds_and_releases() {
    let mut context = Context::new();
    let texture = array(&mut context, 4, 4, 2, None);
    context.take_commands();
    texture.bind(&mut context, 3);
    texture.bind_as_color_target(&mut context, 1, 2);
    assert_eq!(texture.binding().texture, 1);
    assert_eq!(texture.binding().target, consts::TEXTURE_2D_ARRAY);
    texture.release(&mut context);
    let expected = vec![
        Command::ActiveTexture { unit: consts::TEXTURE0 + 3 },
        Command::BindTexture { target: consts::TEXTURE_2D_ARRAY, texture: 1 },
        Command::FramebufferTextureLayer {
            target: consts::DRAW_FRAMEBUFFER,
            attachment: consts::COLOR_ATTACHMENT0 + 2,
            texture: 1,
            level: 0,
            layer: 1,
        },
        Command::DeleteTexture { texture: 1 },
    ];
    assert_eq!(context.commands(), &expected);
}

#[test]
fn byte_textures_are_marked_with_zero() {
    assert_eq!(<u8 as three_d::texture::TextureDataType>::marker(), 0);
    assert_eq!(<Float32 as three_d::texture::TextureDataType>::marker(), Float32);
}
