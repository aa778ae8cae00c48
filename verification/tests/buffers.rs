use three_d::consts;
use three_d::context::{Command, Context};
use three_d::state::Color;
use three_d::vertex_buffer::VertexBuffer;

#[test]
fn empty_buffer_holds_nothing() {
    let mut context = Context::new();
    let buffer = VertexBuffer::<u32>::new(&mut context).unwrap();
    assert_eq!(buffer.vertex_count(), 0);
    assert_eq!(buffer.count(), 0);
    assert_eq!(context.commands(), &vec![Command::CreateBuffer { buffer: 1 }]);
}

#[test]
fn fill_then_count_gives_the_length() {
    let mut context = Context::new();
    let mut buffer = VertexBuffer::<u16>::new(&mut context).unwrap();
    for len in [1usize, 2, 7, 100, 3, 1] {
        let data: Vec<u16> = vec![9; len];
        buffer.fill(&mut context, &data);
        assert_eq!(buffer.vertex_count() as usize, len);
    }
}

#[test]
fn buffer_of_three_filled_with_two() {
    let mut context = Context::new();
    let mut buffer = VertexBuffer::<u32>::new_with_data(&mut context, &[1, 2, 3]).unwrap();
    assert_eq!(buffer.vertex_count(), 3);
    context.take_commands();
    buffer.fill(&mut context, &[4, 5]);
    assert_eq!(buffer.vertex_count(), 2);
    assert_eq!(buffer.count(), 2);
    let expected = vec![
        Command::BindBuffer { target: consts::ARRAY_BUFFER, buffer: 1 },
        Command::BufferSubData { target: consts::ARRAY_BUFFER, attributes: 2, components: 1 },
        Command::UnbindBuffer { target: consts::ARRAY_BUFFER },
    ];
    assert_eq!(context.commands(), &expected);
}

#[test]
fn new_with_data_allocates_once() {
    let mut context = Context::new();
    let buffer = VertexBuffer::<u8>::new_with_data(&mut context, &[7, 8, 9, 10]).unwrap();
    assert_eq!(buffer.vertex_count(), 4);
    let expected = vec![
        Command::CreateBuffer { buffer: 1 },
        Command::BindBuffer { target: consts::ARRAY_BUFFER, buffer: 1 },
        Command::BufferData {
            target: consts::ARRAY_BUFFER,
            attributes: 4,
            components: 1,
            usage: consts::STATIC_DRAW,
        },
        Command::UnbindBuffer { target: consts::ARRAY_BUFFER },
    ];
    assert_eq!(context.commands(), &expected);
}

#[test]
fn growing_fill_allocates_anew() {
    let mut context = Context::new();
    let mut buffer = VertexBuffer::<i32>::new_with_data(&mut context, &[1, 2]).unwrap();
    context.take_commands();
    buffer.fill(&mut context, &[1, 2, 3]);
    assert_eq!(
        context.commands()[1],
        Command::BufferData {
            target: consts::ARRAY_BUFFER,
            attributes: 3,
            components: 1,
            usage: consts::DYNAMIC_DRAW,
        }
    );
    context.take_commands();
    buffer.fill(&mut context, &[1]);
    buffer.fill(&mut context, &[1, 2, 3]);
    assert!(!context.commands().iter().any(|c| matches!(c, Command::BufferData { .. })));
}

#[test]
fn count_is_in_scalars() {
    let mut context = Context::new();
    let red = Color { r: 255, g: 0, b: 0, a: 255 };
    let buffer = VertexBuffer::<Color>::new_with_data(&mut context, &[red, red, red]).unwrap();
    assert_eq!(buffer.vertex_count(), 3);
    assert_eq!(buffer.count(), 12);
}

#[test]
fn static_and_dynamic_names_do_the_same() {
    let mut a = Context::new();
    let mut b = Context::new();
    let mut c = Context::new();
    let mut x = VertexBuffer::<i16>::new_with_data(&mut a, &[1, 2, 3]).unwrap();
    let mut y = VertexBuffer::<i16>::new_with_static(&mut b, &[1, 2, 3]).unwrap();
    let mut z = VertexBuffer::<i16>::new_with_dynamic(&mut c, &[1, 2, 3]).unwrap();
    x.fill(&mut a, &[1, 2, 3, 4]);
    y.fill_with_static(&mut b, &[1, 2, 3, 4]);
    z.fill_with_dynamic(&mut c, &[1, 2, 3, 4]);
    assert_eq!(a.commands(), b.commands());
    assert_eq!(a.commands(), c.commands());
    assert_eq!(y.vertex_count(), 4);
    assert_eq!(z.count(), 4);
}

#[test]
fn buffer_binds_and_releases() {
    let mut context = Context::new();
    let buffer = VertexBuffer::<i8>::new(&mut context).unwrap();
    context.take_commands();
    buffer.bind(&mut context);
    buffer.release(&mut context);
    let expected = vec![
        Command::BindBuffer { target: consts::ARRAY_BUFFER, buffer: 1 },
        Command::DeleteBuffer { buffer: 1 },
    ];
    assert_eq!(context.commands(), &expected);
}

#[test]
fn fill_replaces_the_content() {
    let mut context = Context::new();
    let mut buffer = VertexBuffer::<u32>::new_with_data(&mut context, &[1, 2, 3]).unwrap();
    assert_eq!(buffer.data(), &vec![1, 2, 3]);
    buffer.fill(&mut context, &[4, 5]);
    assert_eq!(buffer.data(), &vec![4, 5]);
    buffer.fill(&mut context, &[]);
    assert_eq!(buffer.data(), &Vec::<u32>::new());
    assert_eq!(buffer.vertex_count(), 0);
}
